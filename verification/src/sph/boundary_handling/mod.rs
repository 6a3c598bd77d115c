//! Boundary handling: the variants, the request modes of boundary neighbor
//! lookups, and the per-boundary neighbor lists.
pub mod volume_map_boundary;
pub mod volume_maps;

use vstd::prelude::*;

verus! {

#[derive(Debug, Clone, Copy, PartialEq, Eq, Structural)]
pub enum BoundaryHandlingVariant {
    StaticSampleBoundary,
    VolumeMapBoundary,
}

/// Which neighbor list of a boundary a lookup addresses.
#[derive(Debug, Clone, Copy, PartialEq, Eq, Structural)]
pub enum RequestMode {
    Normal,
    ViscosityAcceleration,
}

impl RequestMode {
    pub fn default() -> (m: RequestMode)
        ensures
            m == RequestMode::Normal,
    {
        RequestMode::Normal
    }
}

} // verus!
