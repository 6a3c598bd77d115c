//! Morton codes for the octree neighbor search (Fernández-Fernández et al.,
//! https://doi.org/10.1145/3550454.3555523): three 21-bit grid coordinates
//! are interleaved bit by bit into one 63-bit code.
//!
//! Normalizing a floating-point position to grid coordinates happens
//! outside; this module handles the integer coordinates.
use vstd::prelude::*;

verus! {

/// The bits of the low 21 bits of `v`, spread to every third position.
pub open spec fn spread(v: u64) -> u64 {
    let v0 = v & 0x1fffff;
    let v1 = (v0 | v0 << 32u64) & 0x1f00000000ffff;
    let v2 = (v1 | v1 << 16u64) & 0x1f0000ff0000ff;
    let v3 = (v2 | v2 << 8u64) & 0x100f00f00f00f00f;
    let v4 = (v3 | v3 << 4u64) & 0x10c30c30c30c30c3;
    (v4 | v4 << 2u64) & 0x1249249249249249
}

/// Every third bit of `v`, gathered into a contiguous 21-bit integer.
pub open spec fn gather(v: u64) -> u64 {
    let v0 = v & 0x1249249249249249;
    let v1 = (v0 | v0 >> 2u64) & 0x10c30c30c30c30c3;
    let v2 = (v1 | v1 >> 4u64) & 0x100f00f00f00f00f;
    let v3 = (v2 | v2 >> 8u64) & 0x1f0000ff0000ff;
    let v4 = (v3 | v3 >> 16u64) & 0x1f00000000ffff;
    (v4 | v4 >> 32u64) & 0x1fffff
}

/// The Morton code of the grid coordinates `(ix, iy, iz)`.
pub open spec fn morton(ix: u64, iy: u64, iz: u64) -> u64 {
    spread(ix) | (spread(iy) << 1u64) | (spread(iz) << 2u64)
}

/// Spread bits of a 21-bit integer into every third bit position
pub fn expand_bits(v: u64) -> (r: u64)
    ensures
        r == spread(v),
{
    let mut v = v;
    v = v & 0x1fffff;
    v = (v | v << 32u64) & 0x1f00000000ffff;
    v = (v | v << 16u64) & 0x1f0000ff0000ff;
    v = (v | v << 8u64) & 0x100f00f00f00f00f;
    v = (v | v << 4u64) & 0x10c30c30c30c30c3;
    v = (v | v << 2u64) & 0x1249249249249249;
    v
}

/// Compact every third bit back into a contiguous 21-bit integer
pub fn compact_bits(v: u64) -> (r: u64)
    ensures
        r == gather(v),
{
    let mut v = v;
    v = v & 0x1249249249249249;
    v = (v | v >> 2u64) & 0x10c30c30c30c30c3;
    v = (v | v >> 4u64) & 0x100f00f00f00f00f;
    v = (v | v >> 8u64) & 0x1f0000ff0000ff;
    v = (v | v >> 16u64) & 0x1f00000000ffff;
    v = (v | v >> 32u64) & 0x1fffff;
    v
}

/// Interleaves three grid coordinates (their low 21 bits) into a Morton code.
pub fn interleave_morton3d(ix: u64, iy: u64, iz: u64) -> (code: u64)
    ensures
        code == morton(ix, iy, iz),
{
    expand_bits(ix) | (expand_bits(iy) << 1u64) | (expand_bits(iz) << 2u64)
}

/// Splits a Morton code back into its three grid coordinates.
pub fn deinterleave_morton3d(code: u64) -> (c: (u64, u64, u64))
    ensures
        c == (gather(code), gather(code >> 1u64), gather(code >> 2u64)),
{
    (compact_bits(code), compact_bits(code >> 1u64), compact_bits(code >> 2u64))
}

/// Spreading puts bit `i` of the input at bit `3 i` of the result, for each
/// of the 21 low bits.
pub proof fn lemma_spread_places_bits(v: u64, i: u64)
    requires
        i < 21,
    ensures
        (spread(v) >> (3 * i)) & 1 == (v >> i) & 1,
{
    let s = spread(v);
    assert((s >> (3 * i)) & 1 == (v >> i) & 1) by (bit_vector)
        requires
            s == spread(v),
            i < 21,
    ;
}

/// Bit `3 i` of a Morton code is bit `i` of `ix`, bit `3 i + 1` bit `i` of
/// `iy` and bit `3 i + 2` bit `i` of `iz`, for each of the 21 low bits.
pub proof fn lemma_morton_interleaves(ix: u64, iy: u64, iz: u64, i: u64)
    requires
        i < 21,
    ensures
        (morton(ix, iy, iz) >> (3 * i)) & 1 == (ix >> i) & 1,
        (morton(ix, iy, iz) >> (3 * i + 1)) & 1 == (iy >> i) & 1,
        (morton(ix, iy, iz) >> (3 * i + 2)) & 1 == (iz >> i) & 1,
{
    let a = spread(ix);
    let b = spread(iy);
    let c = spread(iz);
    lemma_spread_places_bits(ix, i);
    lemma_spread_places_bits(iy, i);
    lemma_spread_places_bits(iz, i);
    lemma_spread_bits(ix);
    lemma_spread_bits(iy);
    lemma_spread_bits(iz);
    let m = morton(ix, iy, iz);
    assert((m >> (3 * i)) & 1 == (a >> (3 * i)) & 1 && (m >> (3 * i + 1)) & 1 == (b >> (3 * i))
        & 1 && (m >> (3 * i + 2)) & 1 == (c >> (3 * i)) & 1) by (bit_vector)
        requires
            m == a | (b << 1u64) | (c << 2u64),
            a & !0x1249249249249249u64 == 0,
            b & !0x1249249249249249u64 == 0,
            c & !0x1249249249249249u64 == 0,
            i < 21,
    ;
}

/// Gathering undoes spreading on the low 21 bits.
pub proof fn lemma_gather_spread(v: u64)
    ensures
        gather(spread(v)) == v & 0x1fffff,
{
    let s = spread(v);
    assert(gather(s) == v & 0x1fffff) by (bit_vector)
        requires
            s == spread(v),
    ;
}

/// Spread bits occupy only every third position, below bit 63.
pub proof fn lemma_spread_bits(v: u64)
    ensures
        spread(v) & !0x1249249249249249u64 == 0,
{
    assert(spread(v) & !0x1249249249249249u64 == 0) by (bit_vector);
}

/// Decoding a Morton code gives back the low 21 bits of each coordinate.
pub proof fn lemma_morton_roundtrip(ix: u64, iy: u64, iz: u64)
    ensures
        gather(morton(ix, iy, iz)) == ix & 0x1fffff,
        gather(morton(ix, iy, iz) >> 1u64) == iy & 0x1fffff,
        gather(morton(ix, iy, iz) >> 2u64) == iz & 0x1fffff,
{
    let a = spread(ix);
    let b = spread(iy);
    let c = spread(iz);
    lemma_gather_spread(ix);
    lemma_gather_spread(iy);
    lemma_gather_spread(iz);
    lemma_spread_bits(ix);
    lemma_spread_bits(iy);
    lemma_spread_bits(iz);
    let m = a | (b << 1u64) | (c << 2u64);
    assert(m & 0x1249249249249249u64 == a && (m >> 1u64) & 0x1249249249249249u64 == b && (m
        >> 2u64) & 0x1249249249249249u64 == c) by (bit_vector)
        requires
            m == a | (b << 1u64) | (c << 2u64),
            a & !0x1249249249249249u64 == 0,
            b & !0x1249249249249249u64 == 0,
            c & !0x1249249249249249u64 == 0,
    ;
    lemma_gather_masks(m);
    lemma_gather_masks(m >> 1u64);
    lemma_gather_masks(m >> 2u64);
}

/// Gathering looks only at every third bit.
pub proof fn lemma_gather_masks(v: u64)
    ensures
        gather(v) == gather(v & 0x1249249249249249u64),
{
    assert(gather(v) == gather(v & 0x1249249249249249u64)) by (bit_vector);
}

} // verus!

verus! {

/// Octree neighbor search structure: samples are assigned to cells of size
/// `cell_size` (`F` is the type of a length), ordered by the Morton codes
/// of their cells in `z_index`, with `cell_offsets` marking where each
/// cell's samples begin.
#[derive(Debug, Clone)]
pub struct Octree<F> {
    cell_size: F,
    z_index: Vec<u64>,
    cell_offsets: Vec<usize>,
}

impl<F> Octree<F> {
    pub closed spec fn size(&self) -> F {
        self.cell_size
    }

    /// Number of samples ordered so far.
    pub closed spec fn ordered(&self) -> nat {
        self.z_index@.len()
    }

    /// An octree of the given cell size with no samples assigned yet.
    pub fn new(cell_size: F) -> (o: Self)
        ensures
            o.size() == cell_size,
            o.ordered() == 0,
    {
        Self { cell_size, z_index: Vec::new(), cell_offsets: Vec::new() }
    }

    pub fn cell_size(&self) -> (c: &F)
        ensures
            *c == self.size(),
    {
        &self.cell_size
    }

    /// Prepares the neighbor lists for `num_fluid_samples` fluid samples:
    /// both lists cover that many samples and hold no neighbors.  The
    /// octree does not fill them.
    pub fn find_neighbors(
        &mut self,
        num_fluid_samples: usize,
        fluid_neighbors: &mut crate::neighbor_search::NeighborList,
        boundary_neighbors: &mut crate::neighbor_search::NeighborList,
    )
        ensures
            final(self).size() == old(self).size(),
            final(fluid_neighbors).pending().len() == num_fluid_samples,
            final(boundary_neighbors).pending().len() == num_fluid_samples,
            forall|i: int| 0 <= i < num_fluid_samples ==> #[trigger] final(fluid_neighbors).pending()[i].len() == 0,
            forall|i: int| 0 <= i < num_fluid_samples ==> #[trigger] final(boundary_neighbors).pending()[i].len() == 0,
            final(fluid_neighbors).covered() == -1,
            final(boundary_neighbors).covered() == -1,
            final(fluid_neighbors).flat().len() == 0,
            final(boundary_neighbors).flat().len() == 0,
    {
        fluid_neighbors.resize(num_fluid_samples);
        boundary_neighbors.resize(num_fluid_samples);
        fluid_neighbors.clear();
        boundary_neighbors.clear();
    }
}

} // verus!
