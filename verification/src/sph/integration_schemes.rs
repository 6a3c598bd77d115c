//! Integration schemes of the slot-based fluid layout
//! ([`crate::sph::fluid::Fluid`]).  The stepping of most schemes is
//! floating-point work done outside; here are the scheme types, their slot
//! requirements and the one scheme that only moves data.
use vstd::prelude::*;

use crate::sph::fluid::Fluid;

verus! {

#[derive(Debug, Clone, Copy, PartialEq, Eq, Structural)]
pub enum IntegrationSchemeVariant {
    ExplicitEuler,
    EulerCromer,
    Verlet,
    TakePredicted,
}

/// Semi-implicit (symplectic) Euler: velocity first, then position.
#[derive(Debug, Clone, Copy, PartialEq, Eq, Structural)]
pub struct EulerCromer;

/// Explicit Euler: position and velocity from the old state.
#[derive(Debug, Clone, Copy, PartialEq, Eq, Structural)]
pub struct ExplicitEuler;

/// Position Verlet; slot 0 holds the position one step before the current one.
#[derive(Debug, Clone, Copy, PartialEq, Eq, Structural)]
pub struct Verlet;

/// Takes the predicted position and velocity as the new current ones.
#[derive(Debug, Clone, Copy, PartialEq, Eq, Structural)]
pub struct TakePredicted;

impl IntegrationSchemeVariant {
    /// Whether the selected scheme commits a pressure solver's staged
    /// prediction instead of integrating itself (only `TakePredicted`).
    pub fn commits_solver_prediction(&self) -> (b: bool)
        ensures
            b == match *self {
                IntegrationSchemeVariant::ExplicitEuler => ExplicitEuler::COMMITS_SOLVER_PREDICTION,
                IntegrationSchemeVariant::EulerCromer => EulerCromer::COMMITS_SOLVER_PREDICTION,
                IntegrationSchemeVariant::Verlet => Verlet::COMMITS_SOLVER_PREDICTION,
                IntegrationSchemeVariant::TakePredicted => TakePredicted::COMMITS_SOLVER_PREDICTION,
            },
            b == (*self == IntegrationSchemeVariant::TakePredicted),
    {
        match self {
            IntegrationSchemeVariant::ExplicitEuler => ExplicitEuler::COMMITS_SOLVER_PREDICTION,
            IntegrationSchemeVariant::EulerCromer => EulerCromer::COMMITS_SOLVER_PREDICTION,
            IntegrationSchemeVariant::Verlet => Verlet::COMMITS_SOLVER_PREDICTION,
            IntegrationSchemeVariant::TakePredicted => TakePredicted::COMMITS_SOLVER_PREDICTION,
        }
    }
}

impl EulerCromer {
    pub const POSITION_SLOTS: usize = 0;

    pub const VELOCITY_SLOTS: usize = 0;

    pub const COMMITS_SOLVER_PREDICTION: bool = false;
}

impl ExplicitEuler {
    pub const POSITION_SLOTS: usize = 0;

    pub const VELOCITY_SLOTS: usize = 0;

    pub const COMMITS_SOLVER_PREDICTION: bool = false;
}

impl Verlet {
    pub const POSITION_SLOTS: usize = 1;

    pub const VELOCITY_SLOTS: usize = 0;

    pub const COMMITS_SOLVER_PREDICTION: bool = false;
}

impl TakePredicted {
    pub const POSITION_SLOTS: usize = 1;

    pub const VELOCITY_SLOTS: usize = 1;

    pub const COMMITS_SOLVER_PREDICTION: bool = true;

    /// Commits the staged prediction: slot 0 of the integrator's position
    /// and velocity pools becomes the current position and velocity.
    pub fn integrate<P, V, S>(&self, fluid: &mut Fluid<P, V, S>)
        requires
            old(fluid).wf(),
            old(fluid).columns().integrator_position_slots.len() == Self::POSITION_SLOTS,
            old(fluid).columns().integrator_velocity_slots.len() == Self::VELOCITY_SLOTS,
        ensures
            final(fluid).wf(),
            final(fluid).active() == old(fluid).active(),
            final(fluid).columns().position == old(fluid).columns().integrator_position_slots[0],
            final(fluid).columns().velocity == old(fluid).columns().integrator_velocity_slots[0],
            final(fluid).columns().integrator_position_slots == seq![old(fluid).columns().position],
            final(fluid).columns().integrator_velocity_slots == seq![old(fluid).columns().velocity],
            final(fluid).columns().fluid_id == old(fluid).columns().fluid_id,
            final(fluid).columns().acceleration == old(fluid).columns().acceleration,
            final(fluid).columns().mass == old(fluid).columns().mass,
            final(fluid).columns().volume == old(fluid).columns().volume,
            final(fluid).columns().pressure == old(fluid).columns().pressure,
            final(fluid).columns().solver_position_slots == old(fluid).columns().solver_position_slots,
            final(fluid).columns().solver_velocity_slots == old(fluid).columns().solver_velocity_slots,
    {
        fluid.take_integrator_prediction();
    }
}

} // verus!
