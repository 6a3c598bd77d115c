//! Integration schemes over the fluid that keeps previous and predicted
//! state columns ([`crate::fluid::Fluid`]).  The stepping itself is
//! floating-point work done outside; here are the scheme types, their
//! selector and the one scheme that only moves data.
use vstd::prelude::*;

verus! {

#[derive(Debug, Clone, Copy, PartialEq, Eq, Structural)]
pub enum IntegrationSchemeVariant {
    ExplicitEuler,
    EulerCromer,
    Verlet,
    TakePredicted,
}

/// Semi-implicit (symplectic) Euler: velocity first, then position.
#[derive(Debug, Clone, Copy, PartialEq, Eq, Structural)]
pub struct EulerCromer;

/// Explicit Euler: position and velocity from the old state.
#[derive(Debug, Clone, Copy, PartialEq, Eq, Structural)]
pub struct ExplicitEuler;

/// Position Verlet, using the previous position.
#[derive(Debug, Clone, Copy, PartialEq, Eq, Structural)]
pub struct Verlet;

/// Takes the predicted position and velocity as the new current ones.
#[derive(Debug, Clone, Copy, PartialEq, Eq, Structural)]
pub struct TakePredicted;

impl TakePredicted {
    /// The predicted positions and velocities become the current ones, the
    /// current ones the previous ones.
    pub fn integrate<P, V, S>(&self, fluid: &mut crate::fluid::Fluid<P, V, S>)
        ensures
            final(fluid).active() == old(fluid).active(),
            final(fluid).columns() == old(fluid).columns().rotate_position().rotate_velocity(),
            old(fluid).wf() ==> final(fluid).wf(),
    {
        fluid.rotate_position();
        fluid.rotate_velocity();
    }
}

} // verus!
