//! Smoothed particle hydrodynamics: particle containers and the integer
//! side of the solvers.
pub mod fluid;
pub mod boundary_handling;
pub mod integration_schemes;
pub mod kernel;
pub mod pressure_solver;
pub mod sample;
pub mod setup;
pub mod grouping;
