//! Pressure solvers.  The solvers' arithmetic is floating-point work done
//! outside; here is when an iterative solver keeps iterating.
use vstd::prelude::*;

verus! {

/// The pressure solvers a parameter file can select.
#[derive(Debug, Clone, Copy, PartialEq, Eq, Structural)]
pub enum PressureSolverVariant {
    SESPH,
    SESPHwSplitting,
    IISPH,
    IISPHwOST,
}

impl PressureSolverVariant {
    /// Whether the solver stages a predicted position and velocity in the
    /// fluid's integrator slots for the integration scheme to commit (only
    /// `IISPHwOST`).
    pub fn manages_own_integration(&self) -> (b: bool)
        ensures
            b == (*self == PressureSolverVariant::IISPHwOST),
    {
        match self {
            PressureSolverVariant::IISPHwOST => true,
            _ => false,
        }
    }

    /// Whether the solver correctly supports two-way coupling with dynamic
    /// (rigid-body) boundaries (all but `IISPHwOST`).
    pub fn supports_dynamic_boundaries(&self) -> (b: bool)
        ensures
            b == (*self != PressureSolverVariant::IISPHwOST),
    {
        match self {
            PressureSolverVariant::IISPHwOST => false,
            _ => true,
        }
    }
}

/// When an iterative pressure solver stops; `E` is the type of a density error.
#[derive(Debug, Clone, Copy)]
pub enum TerminationCondition<E> {
    /// Stop after a fixed number of iterations.
    AfterIteration(u32),
    /// Stop once the predicted density error no longer exceeds the target,
    /// but not before two iterations.
    TargetDensityError(E),
}

/// Minimum number of iterations under a target density error.
pub const MIN_SOLVER_ITERATIONS: u32 = 2;

/// Whether the solver goes on after `solver_iteration` iterations.  Under a
/// target density error, `error_exceeds_target` tells whether the
/// predicted density error is above the target.
pub fn continue_solving<E>(
    termination_condition: &TerminationCondition<E>,
    solver_iteration: u32,
    error_exceeds_target: bool,
) -> (go_on: bool)
    ensures
        *termination_condition matches TerminationCondition::AfterIteration(n) ==> go_on == (
        solver_iteration < n),
        *termination_condition is TargetDensityError ==> go_on == ((solver_iteration
            < MIN_SOLVER_ITERATIONS || error_exceeds_target) && solver_iteration < u32::MAX),
{
    match termination_condition {
        TerminationCondition::AfterIteration(number) => solver_iteration < *number,
        TerminationCondition::TargetDensityError(_) => {
            let min_solver_iterations = MIN_SOLVER_ITERATIONS;
            let max_solver_iteration = u32::MAX;
            (solver_iteration < min_solver_iterations || error_exceeds_target) && solver_iteration
                < max_solver_iteration
        },
    }
}

} // verus!
