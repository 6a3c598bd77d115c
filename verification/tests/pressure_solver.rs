use sci_phi::sph::pressure_solver::{continue_solving, TerminationCondition};

/// Decides as the solver does: under a target density error the
/// comparison of the predicted error with the target is handed in.
fn go_on(cond: &TerminationCondition<f64>, iteration: u32, predicted_density_error: f64) -> bool {
    let exceeds = match cond {
        TerminationCondition::TargetDensityError(tde) => predicted_density_error > *tde,
        TerminationCondition::AfterIteration(_) => false,
    };
    continue_solving(cond, iteration, exceeds)
}

#[test]
fn continue_solving_after_iteration_stops_exactly_at_the_bound() {
    assert!(go_on(&TerminationCondition::AfterIteration(3), 0, 0.0));
    assert!(go_on(&TerminationCondition::AfterIteration(3), 2, 0.0));
    assert!(!go_on(&TerminationCondition::AfterIteration(3), 3, 0.0));
    assert!(!go_on(&TerminationCondition::AfterIteration(0), 0, 0.0));
}

#[test]
fn continue_solving_target_density_error_forces_minimum_two_iterations() {
    assert!(go_on(&TerminationCondition::TargetDensityError(1.0), 0, 0.0));
    assert!(go_on(&TerminationCondition::TargetDensityError(1.0), 1, 0.0));
}

#[test]
fn continue_solving_target_density_error_stops_once_below_target_after_minimum() {
    assert!(!go_on(&TerminationCondition::TargetDensityError(1.0), 2, 0.5));
    assert!(go_on(&TerminationCondition::TargetDensityError(1.0), 2, 2.0));
}

#[test]
fn continue_solving_never_passes_the_largest_iteration_count() {
    let cond = TerminationCondition::TargetDensityError(1.0);
    assert!(!continue_solving(&cond, u32::MAX, true));
    assert!(continue_solving(&cond, u32::MAX - 1, true));
    assert!(!continue_solving(&TerminationCondition::<f64>::AfterIteration(u32::MAX), u32::MAX, true));
}
