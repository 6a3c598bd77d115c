//! Selectors of how fluids and boundaries are colored when rendered.
use vstd::prelude::*;

verus! {

#[derive(Debug, Clone, Copy, PartialEq, Eq, Structural)]
pub enum FluidMeshColoring {
    /// Uniform, semi-transparent grey
    Uniform,
    /// Colored by fluid id
    FluidId,
}

#[derive(Debug, Clone, Copy, PartialEq, Eq, Structural)]
pub enum ScalarQuantity {
    Speed,
    Volume,
    Density,
    DensityError,
    Pressure,
    KineticEnergy,
}

#[derive(Debug, Clone)]
pub enum BoundaryMeshColoring {
    Original,
    Uniform,
    BoundaryId { ids: Vec<u32>, max_id: u32 },
}

#[derive(Debug, Clone)]
pub enum BoundarySampleColoring {
    Uniform,
    BoundaryId { ids: Vec<u32>, max_id: u32 },
}

/// Largest entry of `ids`, 0 for none.
pub open spec fn max_or_zero(ids: Seq<u32>) -> u32
    decreases ids.len(),
{
    if ids.len() == 0 {
        0
    } else {
        let m = max_or_zero(ids.drop_last());
        if ids.last() > m {
            ids.last()
        } else {
            m
        }
    }
}

/// The largest id, 0 when there is none.
pub fn max_id(ids: &[u32]) -> (m: u32)
    ensures
        m == max_or_zero(ids@),
        forall|i: int| 0 <= i < ids@.len() ==> ids@[i] <= m,
        ids@.len() > 0 ==> exists|i: int| 0 <= i < ids@.len() && ids@[i] == m,
        ids@.len() == 0 ==> m == 0,
{
    let n = ids.len();
    let mut m: u32 = 0;
    let mut i: usize = 0;
    while i < n
        invariant
            n == ids@.len(),
            i <= n,
            m == max_or_zero(ids@.take(i as int)),
            forall|j: int| 0 <= j < i ==> ids@[j] <= m,
            i > 0 ==> exists|j: int| 0 <= j < i && ids@[j] == m,
            i == 0 ==> m == 0,
        decreases n - i,
    {
        proof {
            assert(ids@.take(i as int + 1).drop_last() =~= ids@.take(i as int));
        }
        if ids[i] > m {
            m = ids[i];
        }
        i = i + 1;
    }
    proof {
        assert(ids@.take(n as int) =~= ids@);
    }
    m
}

impl BoundaryMeshColoring {
    /// Coloring by boundary id, with the largest id alongside.
    pub fn boundary_id(ids: Vec<u32>) -> (c: BoundaryMeshColoring)
        ensures
            c matches BoundaryMeshColoring::BoundaryId { ids: i, max_id: m } && i@ == ids@ && m
                == max_or_zero(ids@),
    {
        let max_id = max_id(ids.as_slice());
        BoundaryMeshColoring::BoundaryId { ids, max_id }
    }
}

impl BoundarySampleColoring {
    /// Coloring by boundary id, with the largest id alongside.
    pub fn boundary_id(ids: Vec<u32>) -> (c: BoundarySampleColoring)
        ensures
            c matches BoundarySampleColoring::BoundaryId { ids: i, max_id: m } && i@ == ids@ && m
                == max_or_zero(ids@),
    {
        let max_id = max_id(ids.as_slice());
        BoundarySampleColoring::BoundaryId { ids, max_id }
    }
}

} // verus!
