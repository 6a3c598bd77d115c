use sci_phi::measurement::RecordingStatus;
use sci_phi::playback::{
    Action, FrameControl, InsertionResult, InstanceStore, PlaybackControls, PlaybackDirection, StagingResult,
};

fn store_of(numbers: &[u64]) -> InstanceStore<u32> {
    let mut s = InstanceStore::new();
    s.store(numbers.iter().map(|&n| (n, n as u32 * 10)).collect());
    s
}

#[test]
fn playback_controls_start_as_asked() {
    let c = PlaybackControls::new(true, false);
    assert!(c.is_playing());
    assert!(c.is_playing_forward());
    assert!(!c.is_looped());
    let mut c = PlaybackControls::new(false, true);
    assert!(!c.is_playing());
    c.play();
    assert!(c.is_playing());
    c.pause();
    assert!(!c.is_playing());
}

#[test]
fn looping_needs_the_past_to_be_kept() {
    let mut c = PlaybackControls::default();
    c.play_looped = true;
    assert!(c.is_looped());
    c.discard_past = true;
    assert!(!c.is_looped());
    c.direction = PlaybackDirection::Backward;
    assert!(!c.is_playing_forward());
}

#[test]
fn recording_status_runs_through_its_states() {
    let mut s = RecordingStatus::default();
    assert!(!s.is_active());
    assert!(!s.is_finished());
    s = RecordingStatus::NotStarted;
    s.advance_to_next_state();
    assert_eq!(s, RecordingStatus::InProgress);
    assert!(s.is_active());
    s.advance_to_next_state();
    assert_eq!(s, RecordingStatus::Finished);
    assert!(s.is_finished());
    assert!(!s.is_active());
}

#[test]
fn frame_control_counts_single_steps() {
    let mut f: FrameControl<u64, u32> = FrameControl::new(5, 16);
    assert_eq!(*f.last_sim_state_render_time(), 5);
    assert!(matches!(f.get_next_action(false, true, false, 0), Action::Wait));
    f.step_forward();
    f.step_forward();
    assert!(matches!(
        f.get_next_action(false, true, false, 0),
        Action::StepInTime(PlaybackDirection::Forward)
    ));
    f.stepped_in_time(PlaybackDirection::Forward);
    f.stepped_in_time(PlaybackDirection::Forward);
    f.step_backward();
    assert!(matches!(
        f.get_next_action(false, true, false, 0),
        Action::StepInTime(PlaybackDirection::Backward)
    ));
    f.reset_steps();
    assert!(matches!(f.get_next_action(false, true, false, 0), Action::Wait));
}

#[test]
fn frame_control_plays_intervals_or_single_frames() {
    let f: FrameControl<u64, u32> = FrameControl::new(0, 16);
    assert!(matches!(f.get_next_action(true, true, false, 7), Action::PlayTimeInterval(7)));
    assert!(matches!(
        f.get_next_action(true, false, true, 7),
        Action::StepInTime(PlaybackDirection::Backward)
    ));
}

#[test]
fn frame_control_counts_discarded_steps_only_when_discarding() {
    let mut f: FrameControl<u64, u32> = FrameControl::new(0, 16);
    f.count_discarded_time_steps(3, false);
    assert_eq!(f.get_and_reset_time_steps_discarded(), 0);
    f.count_discarded_time_steps(3, true);
    f.count_discarded_time_steps(2, true);
    assert_eq!(f.get_and_reset_time_steps_discarded(), 5);
    assert_eq!(f.get_and_reset_time_steps_discarded(), 0);
    f.rendering_new_sim_state_now(9);
    f.set_time_increment(32);
    assert_eq!(f.time_increment, 32);
    f.reset(11);
    assert_eq!(*f.last_sim_state_render_time(), 11);
}

#[test]
fn insert_sorts_numbers_into_the_buffer() {
    let mut s: InstanceStore<u32> = InstanceStore::new();
    assert_eq!(s.insert(4, 40), InsertionResult::Pushed);
    assert_eq!(s.insert(5, 50), InsertionResult::Pushed);
    assert_eq!(s.insert(3, 30), InsertionResult::TooOld);
    assert_eq!(s.insert(7, 70), InsertionResult::TooNew);
    assert_eq!(s.insert(4, 41), InsertionResult::ReplacedCurrent);
    assert_eq!(s.insert(5, 51), InsertionResult::ReplacedOther);
    assert_eq!(s.len(), 2);
    assert_eq!(s.get_first_time_step_info(), Some(&41));
    assert_eq!(s.number_range(), (4, 5));
}

#[test]
fn staging_activates_then_steps_with_wrap_around() {
    let mut s = store_of(&[1, 2, 3]);
    assert!(!s.is_active());
    assert_eq!(s.stage_prelude(), Some(StagingResult::Initialized));
    assert!(s.is_active());
    assert_eq!(s.get_current_time_step_number(), Some(1));
    assert_eq!(s.stage_prelude(), None);
    let r = s.stage_step_in_time(PlaybackDirection::Backward, false);
    assert_eq!(r, StagingResult::SteppedInTime { direction: PlaybackDirection::Backward, discarded: 0 });
    assert_eq!(s.get_current_time_step_number(), Some(3));
    let r = s.stage_step_in_time(PlaybackDirection::Forward, false);
    assert_eq!(r, StagingResult::SteppedInTime { direction: PlaybackDirection::Forward, discarded: 0 });
    assert_eq!(s.get_current_time_step_info(), Some(&10));
}

#[test]
fn stepping_forward_while_discarding_drops_the_past() {
    let mut s = store_of(&[1, 2, 3]);
    s.stage_prelude();
    let r = s.stage_step_in_time(PlaybackDirection::Forward, true);
    assert_eq!(r, StagingResult::SteppedInTime { direction: PlaybackDirection::Forward, discarded: 1 });
    assert_eq!(s.len(), 2);
    assert_eq!(s.get_current_time_step_number(), Some(2));
    assert!(!s.can_step_backward());
    assert!(s.can_step_forward());
    assert_eq!(s.remaining_buffer_len(), 1);
}

#[test]
fn next_index_stops_at_the_end_unless_looping() {
    let mut s = store_of(&[1, 2]);
    assert!(!s.next_index(true, false));
    assert!(s.next_index(true, false));
    assert!(s.finished_loop(true));
    s.allow_looping_once(false);
    assert!(!s.next_index(true, false));
    assert!(s.finished_loop(false));
    assert!(s.next_index(false, false));
    assert!(!s.next_index(false, true));
    assert!(s.finished_loop(true));
}

#[test]
fn empty_store_stages_nothing() {
    let mut s: InstanceStore<u32> = InstanceStore::new();
    assert_eq!(s.stage_prelude(), Some(StagingResult::Uninitialized));
    assert!(s.finished_loop(true));
    assert_eq!(s.remaining_buffer_len(), 0);
}

#[test]
fn discard_future_and_reset() {
    let mut s = store_of(&[1, 2, 3, 4]);
    s.next_index(true, false);
    assert_eq!(s.discard_future(), 2);
    assert_eq!(s.len(), 2);
    assert_eq!(s.discard_past(), 1);
    assert_eq!(s.len(), 1);
    s.set_length_limit(8);
    s.reset(false);
    assert_eq!(s.len(), 1);
    assert_eq!(s.buffer_length_limit(), 8);
    s.reset(true);
    assert_eq!(s.len(), 0);
}

#[test]
fn finishing_an_interval_reports_what_was_taken() {
    let mut s = store_of(&[1, 2, 3]);
    s.stage_prelude();
    assert_eq!(s.finish_interval(0, false, true), StagingResult::NoneTaken);
    assert_eq!(s.finish_interval(0, true, true), StagingResult::StoppedAtLoopEndWithNoneTaken);
    s.next_index(true, false);
    assert_eq!(s.finish_interval(1, false, true), StagingResult::SomeTaken { discarded: 1 });
    s.next_index(true, false);
    assert_eq!(s.finish_interval(1, true, false), StagingResult::StoppedAtLoopEndWithSomeTaken { discarded: 0 });
    s.reset_allow_looping_once();
    assert_eq!(s.len(), 2);
}

#[test]
fn stepping_back_undoes_stepping_forward() {
    let mut s = store_of(&[1, 2, 3]);
    s.stage_prelude();
    for _ in 0..3 {
        let before = s.get_current_time_step_number();
        s.stage_step_in_time(PlaybackDirection::Forward, false);
        s.stage_step_in_time(PlaybackDirection::Backward, false);
        assert_eq!(s.get_current_time_step_number(), before);
        s.stage_step_in_time(PlaybackDirection::Forward, false);
    }
}

#[test]
fn a_full_loop_returns_to_the_start() {
    let mut s = store_of(&[5, 6, 7, 8]);
    s.stage_prelude();
    s.stage_step_in_time(PlaybackDirection::Forward, false);
    let start = s.get_current_time_step_number();
    for _ in 0..4 {
        s.stage_step_in_time(PlaybackDirection::Forward, false);
    }
    assert_eq!(s.get_current_time_step_number(), start);
}

#[test]
fn discarding_keeps_the_current_time_step() {
    let mut s = store_of(&[1, 2, 3, 4]);
    s.stage_prelude();
    s.next_index(true, false);
    s.next_index(true, false);
    assert_eq!(s.get_current_time_step_number(), Some(3));
    s.discard_past();
    assert_eq!(s.get_current_time_step_number(), Some(3));
    assert_eq!(s.get_first_time_step_info(), Some(&30));
    s.discard_future();
    assert_eq!(s.get_current_time_step_number(), Some(3));
    assert_eq!(s.len(), 1);
}

#[test]
fn waiting_stages_nothing_and_keeps_the_store() {
    let mut s = store_of(&[3, 4, 5]);
    assert_eq!(s.stage_action::<f32>(&Action::Wait, true), Some(StagingResult::Initialized));
    s.next_index(true, false);
    assert_eq!(s.stage_action::<f32>(&Action::Wait, true), Some(StagingResult::NoneTaken));
    assert_eq!(s.len(), 3);
    assert_eq!(s.get_current_time_step_number(), Some(4));
    assert_eq!(s.number_range(), (3, 5));
    assert_eq!(s.stage_action(&Action::PlayTimeInterval(0.5f32), true), None);
    assert_eq!(
        s.stage_action::<f32>(&Action::StepInTime(PlaybackDirection::Forward), true),
        Some(StagingResult::SteppedInTime { direction: PlaybackDirection::Forward, discarded: 2 })
    );
    assert_eq!(s.number_range(), (5, 5));
}

#[test]
fn an_interval_with_nothing_taken_keeps_the_smallest_number() {
    let mut s = store_of(&[3, 4, 5]);
    s.stage_prelude();
    s.next_index(true, false);
    assert_eq!(s.finish_interval(0, false, true), StagingResult::NoneTaken);
    assert_eq!(s.number_range(), (3, 5));
    assert_eq!(s.finish_interval(1, false, true), StagingResult::SomeTaken { discarded: 1 });
    assert_eq!(s.number_range(), (4, 5));
}
