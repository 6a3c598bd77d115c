//! Volume maps: the per-boundary neighbor lists are the ones of
//! [`crate::sph::boundary_handling::volume_map_boundary`].
pub use crate::sph::boundary_handling::volume_map_boundary::{NeighborList, NeighborListBuilder};
