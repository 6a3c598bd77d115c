//! Verified core of an SPH fluid simulation framework: playback buffering
//! and staging, recording state and measurement series, neighbor lists,
//! spatial hashing, Morton codes, the particle containers of fluids and
//! boundaries with their active-particle bookkeeping, and the checks of the
//! parameter file.
pub mod measurement;
pub mod playback;
pub mod neighbor_search;
pub mod columns;
pub mod sph;
pub mod fluid;
pub mod pages;
pub mod render_info;
pub mod integration_schemes;
pub mod setup;
