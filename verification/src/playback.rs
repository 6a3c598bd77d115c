//! Playback logic: buffering time steps, stepping through time, play/pause.
//!
//! The buffer of time steps is generic over the stored payload `T`; each
//! entry carries the number of the time step it belongs to.  Frame timing is
//! generic over the clock type `I` and the duration type `D`, so that the
//! decisions can be proved here while the clock itself stays outside.
use vstd::prelude::*;

verus! {

// ─── Playback state ───────────────────────────────────────────

#[derive(Debug, Clone, Copy, PartialEq, Eq, Structural)]
pub enum PlaybackState {
    Playing,
    Paused,
}

impl PlaybackState {
    /// Playback starts paused.
    pub fn default() -> (s: PlaybackState)
        ensures
            s == PlaybackState::Paused,
    {
        PlaybackState::Paused
    }
}

#[derive(Debug, Clone, Copy, PartialEq, Eq, Structural)]
pub enum PlaybackDirection {
    Forward,
    Backward,
}

impl PlaybackDirection {
    /// Playback runs forward by default.
    pub fn default() -> (d: PlaybackDirection)
        ensures
            d == PlaybackDirection::Forward,
    {
        PlaybackDirection::Forward
    }
}

/// What the frame control asks the time-step store to do next.
/// `D` is the type of a time interval.
#[derive(Debug, Clone)]
pub enum Action<D> {
    /// Advance through as many buffered time steps as fit into the interval.
    PlayTimeInterval(D),
    /// Move exactly one time step in the given direction.
    StepInTime(PlaybackDirection),
    Wait,
}

#[derive(Debug, Clone)]
pub struct PlaybackControls {
    /// Whether playback runs; set through [`Self::play`] and [`Self::pause`].
    pub state: PlaybackState,
    pub direction: PlaybackDirection,
    pub discard_past: bool,
    pub play_looped: bool,
}

impl PlaybackControls {
    pub open spec fn playing(&self) -> bool {
        self.state == PlaybackState::Playing
    }

    pub open spec fn heading(&self) -> PlaybackDirection {
        self.direction
    }

    pub open spec fn discarding_past(&self) -> bool {
        self.discard_past
    }

    pub open spec fn looping_requested(&self) -> bool {
        self.play_looped
    }

    pub fn new(start_resumed: bool, discard_past: bool) -> (c: Self)
        ensures
            c.playing() == start_resumed,
            c.heading() == PlaybackDirection::Forward,
            c.discarding_past() == discard_past,
            !c.looping_requested(),
    {
        Self {
            state: if start_resumed {
                PlaybackState::Playing
            } else {
                PlaybackState::Paused
            },
            direction: PlaybackDirection::Forward,
            discard_past,
            play_looped: false,
        }
    }

    /// Paused, forward, neither discarding nor looping.
    pub fn default() -> (c: Self)
        ensures
            !c.playing(),
            c.heading() == PlaybackDirection::Forward,
            !c.discarding_past(),
            !c.looping_requested(),
    {
        Self {
            state: PlaybackState::Paused,
            direction: PlaybackDirection::Forward,
            discard_past: false,
            play_looped: false,
        }
    }

    pub fn is_playing(&self) -> (b: bool)
        ensures
            b == self.playing(),
    {
        matches!(self.state, PlaybackState::Playing)
    }

    pub fn is_playing_forward(&self) -> (b: bool)
        ensures
            b <==> self.heading() == PlaybackDirection::Forward,
    {
        matches!(self.direction, PlaybackDirection::Forward)
    }

    /// Looping is only possible while the past is kept.
    pub fn is_looped(&self) -> (b: bool)
        ensures
            b == (!self.discarding_past() && self.looping_requested()),
    {
        if self.discard_past {
            false
        } else {
            self.play_looped
        }
    }

    pub fn play(&mut self)
        ensures
            final(self).playing(),
            final(self).heading() == old(self).heading(),
            final(self).discarding_past() == old(self).discarding_past(),
            final(self).looping_requested() == old(self).looping_requested(),
    {
        self.state = PlaybackState::Playing;
    }

    pub fn pause(&mut self)
        ensures
            !final(self).playing(),
            final(self).heading() == old(self).heading(),
            final(self).discarding_past() == old(self).discarding_past(),
            final(self).looping_requested() == old(self).looping_requested(),
    {
        self.state = PlaybackState::Paused;
    }
}

// ─── Frame control ────────────────────────────────────────────

/// Bookkeeping of single steps and discarded time steps.  `I` is the type of
/// an instant of the clock, `D` the type of a time interval.
pub struct FrameControl<I, D> {
    /// Time at which a new simulation step was rendered the last time
    last_sim_state_render_time: I,
    /// Time increment of current timestep
    pub time_increment: D,
    /// Time steps discarded from stored instances
    pub time_steps_discarded: usize,
    /// Steps to do (for single-stepping); negative means backward
    steps_to_do: i32,
}

impl<I, D> FrameControl<I, D> {
    pub closed spec fn pending_steps(&self) -> int {
        self.steps_to_do as int
    }

    pub closed spec fn last_render(&self) -> I {
        self.last_sim_state_render_time
    }

    pub closed spec fn increment(&self) -> D {
        self.time_increment
    }

    pub closed spec fn discarded_count(&self) -> int {
        self.time_steps_discarded as int
    }

    /// A frame control that last rendered at `now`, with nothing pending.
    pub fn new(now: I, time_increment: D) -> (f: Self)
        ensures
            f.last_render() == now,
            f.increment() == time_increment,
            f.discarded_count() == 0,
            f.pending_steps() == 0,
    {
        Self {
            last_sim_state_render_time: now,
            time_increment,
            time_steps_discarded: 0,
            steps_to_do: 0,
        }
    }

    pub fn last_sim_state_render_time(&self) -> (t: &I)
        ensures
            *t == self.last_render(),
    {
        &self.last_sim_state_render_time
    }

    /// Single steps still to do; negative means backward.
    pub fn steps_to_do(&self) -> (n: i32)
        ensures
            n == self.pending_steps(),
    {
        self.steps_to_do
    }

    pub fn set_time_increment(&mut self, time_inc: D)
        ensures
            final(self).increment() == time_inc,
            final(self).discarded_count() == old(self).discarded_count(),
            final(self).pending_steps() == old(self).pending_steps(),
            final(self).last_render() == old(self).last_render(),
    {
        self.time_increment = time_inc;
    }

    pub fn rendering_new_sim_state_now(&mut self, now: I)
        ensures
            final(self).last_render() == now,
            final(self).increment() == old(self).increment(),
            final(self).discarded_count() == old(self).discarded_count(),
            final(self).pending_steps() == old(self).pending_steps(),
    {
        self.last_sim_state_render_time = now;
    }

    pub fn step_forward(&mut self)
        requires
            old(self).pending_steps() < i32::MAX,
        ensures
            final(self).pending_steps() == old(self).pending_steps() + 1,
            final(self).increment() == old(self).increment(),
            final(self).discarded_count() == old(self).discarded_count(),
            final(self).last_render() == old(self).last_render(),
    {
        self.steps_to_do = self.steps_to_do + 1;
    }

    pub fn step_backward(&mut self)
        requires
            old(self).pending_steps() > i32::MIN,
        ensures
            final(self).pending_steps() == old(self).pending_steps() - 1,
            final(self).increment() == old(self).increment(),
            final(self).discarded_count() == old(self).discarded_count(),
            final(self).last_render() == old(self).last_render(),
    {
        self.steps_to_do = self.steps_to_do - 1;
    }

    pub fn reset_steps(&mut self)
        ensures
            final(self).pending_steps() == 0,
            final(self).increment() == old(self).increment(),
            final(self).discarded_count() == old(self).discarded_count(),
            final(self).last_render() == old(self).last_render(),
    {
        self.steps_to_do = 0;
    }

    /// One step in `direction` was taken: it is no longer pending.
    pub fn stepped_in_time(&mut self, direction: PlaybackDirection)
        requires
            direction == PlaybackDirection::Forward ==> old(self).pending_steps() > i32::MIN,
            direction == PlaybackDirection::Backward ==> old(self).pending_steps() < i32::MAX,
        ensures
            direction == PlaybackDirection::Forward ==> final(self).pending_steps()
                == old(self).pending_steps() - 1,
            direction == PlaybackDirection::Backward ==> final(self).pending_steps()
                == old(self).pending_steps() + 1,
            final(self).increment() == old(self).increment(),
            final(self).discarded_count() == old(self).discarded_count(),
            final(self).last_render() == old(self).last_render(),
    {
        match direction {
            PlaybackDirection::Forward => self.steps_to_do = self.steps_to_do - 1,
            PlaybackDirection::Backward => self.steps_to_do = self.steps_to_do + 1,
        }
    }

    /// Counts `number` discarded time steps, but only when the past is discarded.
    pub fn count_discarded_time_steps(&mut self, number: usize, discard_past: bool)
        requires
            discard_past ==> old(self).discarded_count() + number <= usize::MAX,
        ensures
            final(self).discarded_count() == if discard_past {
                old(self).discarded_count() + number
            } else {
                old(self).discarded_count() as int
            },
            final(self).increment() == old(self).increment(),
            final(self).pending_steps() == old(self).pending_steps(),
            final(self).last_render() == old(self).last_render(),
    {
        if discard_past {
            self.time_steps_discarded = self.time_steps_discarded + number;
        }
    }

    pub fn get_and_reset_time_steps_discarded(&mut self) -> (n: usize)
        ensures
            n == old(self).discarded_count(),
            final(self).discarded_count() == 0,
            final(self).increment() == old(self).increment(),
            final(self).pending_steps() == old(self).pending_steps(),
            final(self).last_render() == old(self).last_render(),
    {
        let timesteps = self.time_steps_discarded;
        self.time_steps_discarded = 0;
        timesteps
    }

    /// Decides the next playback action.  `elapsed` is the time passed since
    /// the last rendered simulation state; it is only used while playing
    /// without active rendering.
    pub fn get_next_action(
        &self,
        is_playing: bool,
        is_playing_forward: bool,
        is_rendering_active: bool,
        elapsed: D,
    ) -> (a: Action<D>)
        ensures
            is_rendering_active && is_playing ==> a == Action::<D>::StepInTime(
                if is_playing_forward {
                    PlaybackDirection::Forward
                } else {
                    PlaybackDirection::Backward
                },
            ),
            !is_rendering_active && is_playing ==> a == Action::PlayTimeInterval(elapsed),
            !is_playing && self.pending_steps() > 0 ==> a == Action::<D>::StepInTime(
                PlaybackDirection::Forward,
            ),
            !is_playing && self.pending_steps() < 0 ==> a == Action::<D>::StepInTime(
                PlaybackDirection::Backward,
            ),
            !is_playing && self.pending_steps() == 0 ==> a == Action::<D>::Wait,
    {
        if is_rendering_active && is_playing {
            let dir = if is_playing_forward {
                PlaybackDirection::Forward
            } else {
                PlaybackDirection::Backward
            };
            Action::StepInTime(dir)
        } else if is_playing {
            Action::PlayTimeInterval(elapsed)
        } else if self.steps_to_do > 0 {
            Action::StepInTime(PlaybackDirection::Forward)
        } else if self.steps_to_do < 0 {
            Action::StepInTime(PlaybackDirection::Backward)
        } else {
            Action::Wait
        }
    }

    pub fn reset(&mut self, now: I)
        ensures
            final(self).last_render() == now,
            final(self).discarded_count() == 0,
            final(self).pending_steps() == 0,
            final(self).increment() == old(self).increment(),
    {
        self.last_sim_state_render_time = now;
        self.time_steps_discarded = 0;
        self.steps_to_do = 0;
    }
}

// ─── Staging result ───────────────────────────────────────────

#[derive(Debug, Clone, Copy, PartialEq, Eq, Structural)]
pub enum StagingResult {
    Initialized,
    SteppedInTime { direction: PlaybackDirection, discarded: usize },
    SomeTaken { discarded: usize },
    StoppedAtLoopEndWithSomeTaken { discarded: usize },
    StoppedAtLoopEndWithNoneTaken,
    NoneTaken,
    NothingToStage,
    Uninitialized,
}

#[derive(Debug, Clone, Copy, PartialEq, Eq, Structural)]
pub enum InsertionResult {
    TooOld,
    ReplacedOther,
    ReplacedCurrent,
    Pushed,
    TooNew,
}

// ─── Instance store ───────────────────────────────────────────

/// `i` is the first position of `s` holding time step number `n`.
pub open spec fn is_first_with<T>(s: Seq<(u64, T)>, n: u64, i: int) -> bool {
    &&& 0 <= i < s.len()
    &&& s[i].0 == n
    &&& forall|j: int| 0 <= j < i ==> s[j].0 != n
}

/// Some position of `s` holds time step number `n`.
pub open spec fn holds_number<T>(s: Seq<(u64, T)>, n: u64) -> bool {
    exists|i: int| 0 <= i < s.len() && s[i].0 == n
}

/// Buffer of time steps, each stored with its time step number, and a
/// cursor (`current_index`) that playback moves through the buffer.
pub struct InstanceStore<T> {
    info_buffer: Vec<(u64, T)>,
    buffer_length_limit: usize,
    current_index: usize,
    active: bool,
    allow_looping_once: bool,
    number_min: u64,
    number_max: u64,
}

impl<T> InstanceStore<T> {
    /// Buffered time steps, in buffer order, with their numbers.
    pub closed spec fn buffer(&self) -> Seq<(u64, T)> {
        self.info_buffer@
    }

    pub closed spec fn current(&self) -> int {
        self.current_index as int
    }

    pub closed spec fn active(&self) -> bool {
        self.active
    }

    pub closed spec fn looping_once(&self) -> bool {
        self.allow_looping_once
    }

    /// Smallest time step number the store accepts without calling it too old.
    pub closed spec fn min_number(&self) -> u64 {
        self.number_min
    }

    /// Largest time step number known to the store; the next one is appended.
    pub closed spec fn max_number(&self) -> u64 {
        self.number_max
    }

    pub closed spec fn length_limit(&self) -> usize {
        self.buffer_length_limit
    }

    /// The cursor lies inside the buffer (or at 0 for an empty buffer), and
    /// an active store is never empty.
    pub closed spec fn wf(&self) -> bool {
        &&& (self.current_index < self.info_buffer@.len() || (self.current_index == 0
            && self.info_buffer@.len() == 0))
        &&& (self.active ==> self.info_buffer@.len() > 0)
    }

    /// An empty, inactive store.
    pub fn new() -> (s: Self)
        ensures
            s.wf(),
            s.buffer().len() == 0,
            s.current() == 0,
            !s.active(),
            !s.looping_once(),
            s.min_number() == 0,
            s.max_number() == 0,
            s.length_limit() == 0,
    {
        Self {
            info_buffer: Vec::new(),
            buffer_length_limit: 0,
            current_index: 0,
            active: false,
            allow_looping_once: false,
            number_min: 0,
            number_max: 0,
        }
    }

    pub fn set_length_limit(&mut self, limit: usize)
        ensures
            final(self).length_limit() == limit,
            final(self).buffer() == old(self).buffer(),
            final(self).current() == old(self).current(),
            final(self).active() == old(self).active(),
            final(self).looping_once() == old(self).looping_once(),
            final(self).min_number() == old(self).min_number(),
            final(self).max_number() == old(self).max_number(),
            old(self).wf() ==> final(self).wf(),
    {
        self.buffer_length_limit = limit;
    }

    pub fn buffer_length_limit(&self) -> (l: usize)
        ensures
            l == self.length_limit(),
    {
        self.buffer_length_limit
    }

    pub fn is_active(&self) -> (b: bool)
        ensures
            b == self.active(),
    {
        self.active
    }

    /// The smallest and the largest time step number known to the store.
    pub fn number_range(&self) -> (r: (u64, u64))
        ensures
            r == (self.min_number(), self.max_number()),
    {
        (self.number_min, self.number_max)
    }

    /// Number of buffered time steps.
    pub fn len(&self) -> (l: usize)
        ensures
            l == self.buffer().len(),
    {
        self.info_buffer.len()
    }

    /// Replace the entire buffer (e.g. loading from file).
    pub fn store(&mut self, time_steps: Vec<(u64, T)>)
        ensures
            final(self).wf(),
            final(self).buffer() == time_steps@,
            final(self).current() == 0,
            !final(self).active(),
            final(self).looping_once() == old(self).looping_once(),
            final(self).length_limit() == old(self).length_limit(),
            time_steps@.len() > 0 ==> final(self).min_number() == time_steps@[0].0
                && final(self).max_number() == time_steps@.last().0,
            time_steps@.len() == 0 ==> final(self).min_number() == old(self).min_number()
                && final(self).max_number() == old(self).max_number(),
    {
        self.info_buffer = time_steps;
        self.current_index = 0;
        self.active = false;
        let n = self.info_buffer.len();
        if n > 0 {
            self.number_min = self.info_buffer[0].0;
            self.number_max = self.info_buffer[n - 1].0;
        }
    }

    /// Position of the first buffered time step numbered `number`, if any.
    fn position_of(&self, number: u64) -> (r: Option<usize>)
        ensures
            match r {
                Some(i) => is_first_with(self.buffer(), number, i as int),
                None => !holds_number(self.buffer(), number),
            },
    {
        let n = self.info_buffer.len();
        let mut i: usize = 0;
        while i < n
            invariant
                n == self.info_buffer@.len(),
                i <= n,
                forall|j: int| 0 <= j < i ==> self.info_buffer@[j].0 != number,
            decreases n - i,
        {
            if self.info_buffer[i].0 == number {
                return Some(i);
            }
            i = i + 1;
        }
        None
    }

    /// Inserts the time step numbered `number`:
    /// into an empty buffer, or right after the newest one, it is appended;
    /// a number already buffered has its (first) entry replaced;
    /// a number below the known range is too old, any other one too new.
    pub fn insert(&mut self, number: u64, info: T) -> (r: InsertionResult)
        requires
            old(self).wf(),
            old(self).buffer().len() > 0 ==> old(self).max_number() < u64::MAX,
        ensures
            final(self).wf(),
            final(self).current() == old(self).current(),
            final(self).active() == old(self).active(),
            final(self).looping_once() == old(self).looping_once(),
            final(self).length_limit() == old(self).length_limit(),
            ({
                let s = old(self).buffer();
                let lo = old(self).min_number();
                let hi = old(self).max_number();
                if s.len() == 0 {
                    &&& r == InsertionResult::Pushed
                    &&& final(self).buffer() == s.push((number, info))
                    &&& final(self).min_number() == number
                    &&& final(self).max_number() == number
                } else if number == hi + 1 {
                    &&& r == InsertionResult::Pushed
                    &&& final(self).buffer() == s.push((number, info))
                    &&& final(self).min_number() == lo
                    &&& final(self).max_number() == number
                } else if number < lo {
                    &&& r == InsertionResult::TooOld
                    &&& final(self).buffer() == s
                    &&& final(self).min_number() == lo
                    &&& final(self).max_number() == hi
                } else if number <= hi && holds_number(s, number) {
                    let i = choose|i: int| is_first_with(s, number, i);
                    &&& is_first_with(s, number, i)
                    &&& final(self).buffer() == s.update(i, (number, info))
                    &&& (r == InsertionResult::ReplacedCurrent <==> i == old(self).current())
                    &&& (r == InsertionResult::ReplacedOther <==> i != old(self).current())
                    &&& final(self).min_number() == lo
                    &&& final(self).max_number() == hi
                } else {
                    &&& r == InsertionResult::TooNew
                    &&& final(self).buffer() == s
                    &&& final(self).min_number() == lo
                    &&& final(self).max_number() == hi
                }
            }),
    {
        if self.info_buffer.len() == 0 {
            self.number_min = number;
            self.number_max = number;
            self.info_buffer.push((number, info));
            return InsertionResult::Pushed;
        }
        if number == self.number_max + 1 {
            self.number_max = self.number_max + 1;
            self.info_buffer.push((number, info));
            return InsertionResult::Pushed;
        }
        if number < self.number_min {
            return InsertionResult::TooOld;
        }
        if number <= self.number_max {
            match self.position_of(number) {
                Some(idx) => {
                    proof {
                        let s = self.info_buffer@;
                        let c = choose|i: int| is_first_with(s, number, i);
                        assert(is_first_with(s, number, idx as int));
                        assert(is_first_with(s, number, c));
                        assert(c == idx as int) by {
                            if c < idx as int {
                                assert(s[c].0 != number);
                            }
                            if (idx as int) < c {
                                assert(s[idx as int].0 != number);
                            }
                        }
                    }
                    let replaces_current = idx == self.current_index;
                    self.info_buffer.set(idx, (number, info));
                    if replaces_current {
                        return InsertionResult::ReplacedCurrent;
                    } else {
                        return InsertionResult::ReplacedOther;
                    }
                },
                None => {},
            }
        }
        InsertionResult::TooNew
    }

    pub fn get_first_time_step_info(&self) -> (r: Option<&T>)
        ensures
            self.buffer().len() == 0 ==> r.is_none(),
            self.buffer().len() > 0 ==> r == Some(&self.buffer()[0].1),
    {
        if self.info_buffer.len() > 0 {
            Some(&self.info_buffer[0].1)
        } else {
            None
        }
    }

    pub fn get_current_time_step_info(&self) -> (r: Option<&T>)
        requires
            self.wf(),
        ensures
            !self.active() ==> r.is_none(),
            self.active() ==> r == Some(&self.buffer()[self.current()].1),
    {
        if self.active {
            Some(&self.info_buffer[self.current_index].1)
        } else {
            None
        }
    }

    /// Number of the time step under the cursor, while the store is active.
    pub fn get_current_time_step_number(&self) -> (r: Option<u64>)
        requires
            self.wf(),
        ensures
            !self.active() ==> r.is_none(),
            self.active() ==> r == Some(self.buffer()[self.current()].0),
    {
        if self.active {
            Some(self.info_buffer[self.current_index].0)
        } else {
            None
        }
    }

    /// Number of buffered time steps after the cursor.
    pub fn remaining_buffer_len(&self) -> (n: usize)
        requires
            self.wf(),
        ensures
            self.buffer().len() == 0 ==> n == 0,
            self.buffer().len() > 0 ==> n == self.buffer().len() - (self.current() + 1),
    {
        if self.info_buffer.len() == 0 {
            0
        } else {
            self.info_buffer.len() - (self.current_index + 1)
        }
    }

    pub fn can_step_forward(&self) -> (b: bool)
        requires
            self.wf(),
        ensures
            b == (self.active() && self.current() + 1 < self.buffer().len()),
    {
        self.active && self.info_buffer.len() > 0 && self.current_index < self.info_buffer.len() - 1
    }

    pub fn can_step_backward(&self) -> (b: bool)
        ensures
            b == (self.active() && self.current() > 0),
    {
        self.active && self.current_index > 0
    }

    /// The cursor stands at the end the playback direction leads to.
    pub fn finished_loop(&self, forward: bool) -> (b: bool)
        ensures
            self.buffer().len() == 0 ==> b,
            self.buffer().len() > 0 && forward ==> b == (self.current() == self.buffer().len()
                - 1),
            self.buffer().len() > 0 && !forward ==> b == (self.current() == 0),
    {
        if self.info_buffer.len() == 0 {
            return true;
        }
        if forward {
            self.current_index == self.info_buffer.len() - 1
        } else {
            self.current_index == 0
        }
    }

    /// Allows one wrap-around when playback is not looped anyway.
    pub fn allow_looping_once(&mut self, looped_playback: bool)
        ensures
            final(self).looping_once() == (old(self).looping_once() || !looped_playback),
            final(self).buffer() == old(self).buffer(),
            final(self).current() == old(self).current(),
            final(self).active() == old(self).active(),
            final(self).min_number() == old(self).min_number(),
            final(self).max_number() == old(self).max_number(),
            final(self).length_limit() == old(self).length_limit(),
            old(self).wf() ==> final(self).wf(),
    {
        if !looped_playback {
            self.allow_looping_once = true;
        }
    }

    pub fn reset_allow_looping_once(&mut self)
        ensures
            !final(self).looping_once(),
            final(self).buffer() == old(self).buffer(),
            final(self).current() == old(self).current(),
            final(self).active() == old(self).active(),
            final(self).min_number() == old(self).min_number(),
            final(self).max_number() == old(self).max_number(),
            final(self).length_limit() == old(self).length_limit(),
            old(self).wf() ==> final(self).wf(),
    {
        self.allow_looping_once = false;
    }

    /// Drops every time step before the cursor; returns how many were dropped.
    pub fn discard_past(&mut self) -> (discarded: usize)
        requires
            old(self).wf(),
        ensures
            final(self).wf(),
            discarded == old(self).current(),
            final(self).buffer() == old(self).buffer().subrange(
                old(self).current(),
                old(self).buffer().len() as int,
            ),
            final(self).current() == 0,
            final(self).active() == old(self).active(),
            final(self).looping_once() == old(self).looping_once(),
            final(self).length_limit() == old(self).length_limit(),
            final(self).max_number() == old(self).max_number(),
            old(self).current() == 0 ==> final(self).min_number() == old(self).min_number(),
            old(self).current() > 0 ==> final(self).min_number() == old(self).buffer()[old(
                self,
            ).current()].0,
    {
        if self.current_index == 0 {
            proof {
                assert(self.info_buffer@.subrange(0, self.info_buffer@.len() as int)
                    =~= self.info_buffer@);
            }
            return 0;
        }
        let discarded = self.current_index;
        let rest = self.info_buffer.split_off(self.current_index);
        self.info_buffer = rest;
        self.current_index = 0;
        self.number_min = self.info_buffer[0].0;
        discarded
    }

    /// Drops every time step after the cursor; returns how many were dropped.
    pub fn discard_future(&mut self) -> (discarded: usize)
        requires
            old(self).wf(),
            old(self).buffer().len() > 0,
        ensures
            final(self).wf(),
            discarded == old(self).buffer().len() - old(self).current() - 1,
            final(self).buffer() == old(self).buffer().subrange(0, old(self).current() + 1),
            final(self).current() == old(self).current(),
            final(self).active() == old(self).active(),
            final(self).looping_once() == old(self).looping_once(),
            final(self).length_limit() == old(self).length_limit(),
            final(self).min_number() == old(self).min_number(),
            final(self).max_number() == old(self).buffer()[old(self).current()].0,
    {
        let discarded = self.info_buffer.len() - self.current_index - 1;
        self.info_buffer.truncate(self.current_index + 1);
        self.number_max = self.info_buffer[self.current_index].0;
        discarded
    }

    /// Back to the start, inactive; optionally forgets every buffered step.
    pub fn reset(&mut self, clear_buffer: bool)
        requires
            old(self).wf(),
        ensures
            final(self).wf(),
            clear_buffer ==> final(self).buffer().len() == 0,
            !clear_buffer ==> final(self).buffer() == old(self).buffer(),
            final(self).current() == 0,
            !final(self).active(),
            !final(self).looping_once(),
            final(self).min_number() == 0,
            final(self).max_number() == 0,
            final(self).length_limit() == old(self).length_limit(),
    {
        if clear_buffer {
            self.info_buffer.clear();
        }
        self.current_index = 0;
        self.active = false;
        self.allow_looping_once = false;
        self.number_min = 0;
        self.number_max = 0;
    }

    /// Moves the cursor one step; at an end it wraps around when looping
    /// (or looping once is allowed, which uses up that allowance).
    /// Returns true when the end was hit and no wrap-around was allowed.
    pub fn next_index(&mut self, forward: bool, looped: bool) -> (hit_end: bool)
        requires
            old(self).wf(),
            old(self).buffer().len() > 0,
        ensures
            final(self).wf(),
            final(self).buffer() == old(self).buffer(),
            final(self).active() == old(self).active(),
            final(self).min_number() == old(self).min_number(),
            final(self).max_number() == old(self).max_number(),
            final(self).length_limit() == old(self).length_limit(),
            final(self).current() == next_cursor(
                old(self).current(),
                old(self).buffer().len() as int,
                forward,
                looped || old(self).looping_once(),
            ),
            hit_end == at_unpassable_end(
                old(self).current(),
                old(self).buffer().len() as int,
                forward,
                looped || old(self).looping_once(),
            ),
            final(self).looping_once() == (old(self).looping_once() && !wraps_around(
                old(self).current(),
                old(self).buffer().len() as int,
                forward,
                looped || old(self).looping_once(),
            )),
    {
        if forward {
            if self.current_index < self.info_buffer.len() - 1 {
                self.current_index = self.current_index + 1;
                false
            } else if looped || self.allow_looping_once {
                self.current_index = 0;
                self.allow_looping_once = false;
                false
            } else {
                true
            }
        } else if self.current_index > 0 {
            self.current_index = self.current_index - 1;
            false
        } else if looped || self.allow_looping_once {
            self.current_index = self.info_buffer.len() - 1;
            self.allow_looping_once = false;
            false
        } else {
            true
        }
    }

    /// Marks the store active; optionally drops the past.  Returns the
    /// number of dropped time steps.
    pub fn activate(&mut self, discard_past: bool) -> (discarded: usize)
        requires
            old(self).wf(),
            old(self).buffer().len() > 0,
        ensures
            final(self).wf(),
            final(self).active(),
            final(self).looping_once() == old(self).looping_once(),
            final(self).length_limit() == old(self).length_limit(),
            final(self).max_number() == old(self).max_number(),
            discard_past ==> discarded == old(self).current() && final(self).buffer() == old(
                self,
            ).buffer().subrange(old(self).current(), old(self).buffer().len() as int)
                && final(self).current() == 0,
            discard_past && old(self).current() > 0 ==> final(self).min_number() == old(
                self,
            ).buffer()[old(self).current()].0,
            !(discard_past && old(self).current() > 0) ==> final(self).min_number() == old(
                self,
            ).min_number(),
            !discard_past ==> discarded == 0 && final(self).buffer() == old(self).buffer()
                && final(self).current() == old(self).current(),
    {
        self.active = true;
        if discard_past {
            self.discard_past()
        } else {
            0
        }
    }

    /// The part of staging every action shares: an empty store has nothing
    /// to stage, and an inactive one is activated at its cursor first.
    /// Returns `Some` when staging ends here, `None` when the action is to
    /// be carried out.
    pub fn stage_prelude(&mut self) -> (r: Option<StagingResult>)
        requires
            old(self).wf(),
        ensures
            final(self).wf(),
            old(self).buffer().len() == 0 && !old(self).active() ==> r == Some(
                StagingResult::Uninitialized,
            ),
            old(self).buffer().len() == 0 && old(self).active() ==> r == Some(
                StagingResult::NothingToStage,
            ),
            old(self).buffer().len() > 0 && !old(self).active() ==> r == Some(
                StagingResult::Initialized,
            ),
            old(self).buffer().len() > 0 && old(self).active() ==> r.is_none(),
            final(self).buffer() == old(self).buffer(),
            final(self).current() == old(self).current(),
            final(self).active() == (old(self).active() || old(self).buffer().len() > 0),
            final(self).looping_once() == old(self).looping_once(),
            final(self).min_number() == old(self).min_number(),
            final(self).max_number() == old(self).max_number(),
            final(self).length_limit() == old(self).length_limit(),
    {
        if self.info_buffer.len() == 0 && !self.active {
            return Some(StagingResult::Uninitialized);
        }
        if self.info_buffer.len() == 0 {
            return Some(StagingResult::NothingToStage);
        }
        if !self.active {
            self.activate(false);
            return Some(StagingResult::Initialized);
        }
        None
    }

    /// Stages one step in `direction` (always wrapping around at the ends).
    pub fn stage_step_in_time(&mut self, direction: PlaybackDirection, discard_past: bool) -> (r:
        StagingResult)
        requires
            old(self).wf(),
            old(self).buffer().len() > 0,
        ensures
            final(self).wf(),
            final(self).active(),
            ({
                let fwd = direction == PlaybackDirection::Forward;
                let c = next_cursor(old(self).current(), old(self).buffer().len() as int, fwd, true);
                if discard_past {
                    &&& r == (StagingResult::SteppedInTime { direction, discarded: c as usize })
                    &&& final(self).buffer() == old(self).buffer().subrange(
                        c,
                        old(self).buffer().len() as int,
                    )
                    &&& final(self).current() == 0
                } else {
                    &&& r == (StagingResult::SteppedInTime { direction, discarded: 0 })
                    &&& final(self).buffer() == old(self).buffer()
                    &&& final(self).current() == c
                }
            }),
            final(self).looping_once() == (old(self).looping_once() && !wraps_around(
                old(self).current(),
                old(self).buffer().len() as int,
                direction == PlaybackDirection::Forward,
                true,
            )),
            ({
                let c = next_cursor(
                    old(self).current(),
                    old(self).buffer().len() as int,
                    direction == PlaybackDirection::Forward,
                    true,
                );
                final(self).min_number() == if discard_past && c > 0 {
                    old(self).buffer()[c].0
                } else {
                    old(self).min_number()
                }
            }),
            final(self).max_number() == old(self).max_number(),
            final(self).length_limit() == old(self).length_limit(),
    {
        let forward = matches!(direction, PlaybackDirection::Forward);
        self.next_index(forward, true);
        let discarded = self.activate(discard_past);
        StagingResult::SteppedInTime { direction, discarded }
    }

    /// Stages what `action` asks for, except the steps of a time interval:
    /// an empty or inactive store is handled as by [`Self::stage_prelude`];
    /// then a single step is staged, waiting stages nothing and leaves the
    /// store as it is, and a time interval is left to the caller (`None`),
    /// who moves the cursor with [`Self::next_index`] while the interval
    /// lasts and ends with [`Self::finish_interval`].
    pub fn stage_action<D>(&mut self, action: &Action<D>, discard_past: bool) -> (r: Option<
        StagingResult,
    >)
        requires
            old(self).wf(),
        ensures
            final(self).wf(),
            !(old(self).buffer().len() > 0 && old(self).active() && action is StepInTime)
                ==> final(self).looping_once() == old(self).looping_once(),
            final(self).max_number() == old(self).max_number(),
            final(self).length_limit() == old(self).length_limit(),
            old(self).buffer().len() == 0 ==> {
                &&& r == Some(
                    if old(self).active() {
                        StagingResult::NothingToStage
                    } else {
                        StagingResult::Uninitialized
                    },
                )
                &&& final(self).buffer() == old(self).buffer()
                &&& final(self).current() == old(self).current()
                &&& final(self).active() == old(self).active()
                &&& final(self).min_number() == old(self).min_number()
            },
            old(self).buffer().len() > 0 && !old(self).active() ==> {
                &&& r == Some(StagingResult::Initialized)
                &&& final(self).buffer() == old(self).buffer()
                &&& final(self).current() == old(self).current()
                &&& final(self).active()
                &&& final(self).looping_once() == old(self).looping_once()
                &&& final(self).min_number() == old(self).min_number()
            },
            old(self).buffer().len() > 0 && old(self).active() && !(action is StepInTime) ==> {
                &&& r == if action is Wait {
                    Some(StagingResult::NoneTaken)
                } else {
                    None
                }
                &&& final(self).buffer() == old(self).buffer()
                &&& final(self).current() == old(self).current()
                &&& final(self).active()
                &&& final(self).looping_once() == old(self).looping_once()
                &&& final(self).min_number() == old(self).min_number()
            },
            old(self).buffer().len() > 0 && old(self).active() && action is StepInTime ==> {
                let direction = action->StepInTime_0;
                let c = next_cursor(
                    old(self).current(),
                    old(self).buffer().len() as int,
                    direction == PlaybackDirection::Forward,
                    true,
                );
                &&& final(self).active()
                &&& final(self).looping_once() == (old(self).looping_once() && !wraps_around(
                    old(self).current(),
                    old(self).buffer().len() as int,
                    direction == PlaybackDirection::Forward,
                    true,
                ))
                &&& discard_past ==> r == Some(
                    StagingResult::SteppedInTime { direction, discarded: c as usize },
                ) && final(self).buffer() == old(self).buffer().subrange(
                    c,
                    old(self).buffer().len() as int,
                ) && final(self).current() == 0
                &&& !discard_past ==> r == Some(
                    StagingResult::SteppedInTime { direction, discarded: 0 },
                ) && final(self).buffer() == old(self).buffer() && final(self).current() == c
                &&& final(self).min_number() == if discard_past && c > 0 {
                    old(self).buffer()[c].0
                } else {
                    old(self).min_number()
                }
            },
    {
        let prelude = self.stage_prelude();
        if prelude.is_some() {
            return prelude;
        }
        match action {
            Action::StepInTime(direction) => Some(self.stage_step_in_time(*direction, discard_past)),
            Action::Wait => Some(StagingResult::NoneTaken),
            Action::PlayTimeInterval(_) => None,
        }
    }

    /// Ends staging of a time interval after `taken` steps were taken,
    /// either because the interval was used up or because the end of the
    /// buffer was hit.  When steps were taken the store is activated
    /// (dropping the past if asked to).
    pub fn finish_interval(&mut self, taken: usize, stopped_at_loop_end: bool, discard_past: bool) -> (r:
        StagingResult)
        requires
            old(self).wf(),
            old(self).buffer().len() > 0,
        ensures
            final(self).wf(),
            taken > 0 ==> final(self).active(),
            taken == 0 ==> final(self).active() == old(self).active(),
            taken > 0 && stopped_at_loop_end ==> r == (StagingResult::StoppedAtLoopEndWithSomeTaken {
                discarded: if discard_past { old(self).current() as usize } else { 0 },
            }),
            taken > 0 && !stopped_at_loop_end ==> r == (StagingResult::SomeTaken {
                discarded: if discard_past { old(self).current() as usize } else { 0 },
            }),
            taken == 0 && stopped_at_loop_end ==> r
                == StagingResult::StoppedAtLoopEndWithNoneTaken,
            taken == 0 && !stopped_at_loop_end ==> r == StagingResult::NoneTaken,
            taken > 0 && discard_past ==> final(self).buffer() == old(self).buffer().subrange(
                old(self).current(),
                old(self).buffer().len() as int,
            ) && final(self).current() == 0,
            !(taken > 0 && discard_past) ==> final(self).buffer() == old(self).buffer()
                && final(self).current() == old(self).current(),
            final(self).looping_once() == old(self).looping_once(),
            final(self).min_number() == if taken > 0 && discard_past && old(self).current() > 0 {
                old(self).buffer()[old(self).current()].0
            } else {
                old(self).min_number()
            },
            final(self).max_number() == old(self).max_number(),
            final(self).length_limit() == old(self).length_limit(),
    {
        if taken > 0 {
            let discarded = self.activate(discard_past);
            if stopped_at_loop_end {
                StagingResult::StoppedAtLoopEndWithSomeTaken { discarded }
            } else {
                StagingResult::SomeTaken { discarded }
            }
        } else if stopped_at_loop_end {
            StagingResult::StoppedAtLoopEndWithNoneTaken
        } else {
            StagingResult::NoneTaken
        }
    }
}

/// Whether stepping from cursor `c` in a buffer of `len` entries runs past
/// an end.
pub open spec fn wraps_around(c: int, len: int, forward: bool, may_wrap: bool) -> bool {
    may_wrap && if forward {
        c + 1 >= len
    } else {
        c == 0
    }
}

/// Whether stepping from cursor `c` hits an end that may not be passed.
pub open spec fn at_unpassable_end(c: int, len: int, forward: bool, may_wrap: bool) -> bool {
    !may_wrap && if forward {
        c + 1 >= len
    } else {
        c == 0
    }
}

/// Cursor after one step from `c` in a buffer of `len` entries.
pub open spec fn next_cursor(c: int, len: int, forward: bool, may_wrap: bool) -> int {
    if forward {
        if c + 1 < len {
            c + 1
        } else if may_wrap {
            0
        } else {
            c
        }
    } else {
        if c > 0 {
            c - 1
        } else if may_wrap {
            len - 1
        } else {
            c
        }
    }
}

} // verus!

verus! {

/// One step moves the cursor to the neighboring entry: forward to `c + 1`
/// and backward to `c - 1`, counted around the buffer when wrapping is
/// allowed and held at the first or last entry when it is not.
pub proof fn lemma_step_moves_to_neighbor(c: int, len: int, forward: bool, may_wrap: bool)
    requires
        0 <= c < len,
    ensures
        0 <= next_cursor(c, len, forward, may_wrap) < len,
        forward && may_wrap ==> next_cursor(c, len, forward, may_wrap) == (c + 1) % len,
        !forward && may_wrap ==> next_cursor(c, len, forward, may_wrap) == (c + len - 1) % len,
        forward && !may_wrap ==> next_cursor(c, len, forward, may_wrap) == if c + 1 < len {
            c + 1
        } else {
            len - 1
        },
        !forward && !may_wrap ==> next_cursor(c, len, forward, may_wrap) == if c > 0 {
            c - 1
        } else {
            0
        },
{
    if c + 1 < len {
        vstd::arithmetic::div_mod::lemma_small_mod((c + 1) as nat, len as nat);
    } else {
        vstd::arithmetic::div_mod::lemma_mod_self_0(len);
    }
    if c > 0 {
        vstd::arithmetic::div_mod::lemma_small_mod((c - 1) as nat, len as nat);
        vstd::arithmetic::div_mod::lemma_mod_add_multiples_vanish(c - 1, len);
        assert(c + len - 1 == len + (c - 1));
    } else {
        vstd::arithmetic::div_mod::lemma_small_mod((len - 1) as nat, len as nat);
    }
}

/// Stepping back undoes stepping forward, when wrapping around is allowed.
pub proof fn lemma_step_back_undoes_step_forward(c: int, len: int)
    requires
        0 <= c < len,
    ensures
        next_cursor(next_cursor(c, len, true, true), len, false, true) == c,
        next_cursor(next_cursor(c, len, false, true), len, true, true) == c,
{
}

/// The cursor after `k` wrapping forward steps from `c`.
pub open spec fn steps_forward(c: int, len: int, k: nat) -> int
    decreases k,
{
    if k == 0 {
        c
    } else {
        next_cursor(steps_forward(c, len, (k - 1) as nat), len, true, true)
    }
}

/// Wrapping forward steps move the cursor around the buffer modulo its length.
pub proof fn lemma_steps_forward_mod(c: int, len: int, k: nat)
    requires
        0 <= c < len,
    ensures
        steps_forward(c, len, k) == (c + k) % len,
    decreases k,
{
    if k == 0 {
        vstd::arithmetic::div_mod::lemma_small_mod(c as nat, len as nat);
    } else {
        lemma_steps_forward_mod(c, len, (k - 1) as nat);
        let x = (c + k - 1) % len;
        vstd::arithmetic::div_mod::lemma_mod_bound(c + k - 1, len);
        vstd::arithmetic::div_mod::lemma_mod_adds(c + k - 1, 1, len);
        if len == 1 {
            vstd::arithmetic::div_mod::lemma_mod_self_0(1);
            vstd::arithmetic::div_mod::lemma_mod_bound(c + k, 1);
        } else {
            vstd::arithmetic::div_mod::lemma_small_mod(1, len as nat);
            if x + 1 < len {
            } else {
                assert(x + 1 == len);
                vstd::arithmetic::div_mod::lemma_mod_bound(c + k, len);
                assert((x + 1) / len == 1) by {
                    vstd::arithmetic::div_mod::lemma_div_by_self(len);
                }
            }
        }
    }
}

/// Playing a looped buffer forward for as many steps as it holds brings the
/// cursor back to where it started.
pub proof fn lemma_full_loop_returns(c: int, len: nat)
    requires
        0 <= c < len,
    ensures
        steps_forward(c, len as int, len) == c,
{
    lemma_steps_forward_mod(c, len as int, len);
    vstd::arithmetic::div_mod::lemma_mod_add_multiples_vanish(c, len as int);
    vstd::arithmetic::div_mod::lemma_small_mod(c as nat, len);
}

} // verus!

verus! {

/// Dropping the past or the future keeps the time step under the cursor:
/// after `discard_past` it stands first, after `discard_future` last, and
/// it is the same time step either way.
pub proof fn lemma_discarding_keeps_current<T>(s: Seq<(u64, T)>, c: int)
    requires
        0 <= c < s.len(),
    ensures
        s.subrange(c, s.len() as int)[0] == s[c],
        s.subrange(0, c + 1)[c] == s[c],
        s.subrange(0, c + 1).len() == c + 1,
{
}

} // verus!
