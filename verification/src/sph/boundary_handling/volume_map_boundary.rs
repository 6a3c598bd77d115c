//! Per-boundary lists of the fluid samples treated as neighbors, alongside
//! their interpolated position, velocity and volume on the boundary
//! surface.  `P`, `V` and `S` are the position, vector and scalar types.
use vstd::prelude::*;

use crate::columns::{append_copies, clear_lists, empty_lists, resize_lists, views};
use crate::neighbor_search::{concat, lemma_concat_aligned, lemma_concat_index, lemma_concat_take_step};

verus! {

/// The local neighbor indices `xs` of one sample, shifted by `d`.
pub open spec fn shifted(xs: Seq<usize>, d: int) -> Seq<usize> {
    xs.map_values(|x: usize| (x + d) as usize)
}

/// The stored neighbor indices of every sample: its local indices shifted by
/// `global_offset` plus the number of position entries of the samples
/// before it.
pub open spec fn stored_indices<P>(idx: Seq<Seq<usize>>, pos: Seq<Seq<P>>, global_offset: int) -> Seq<Seq<usize>> {
    Seq::new(idx.len(), |k: int| shifted(idx[k], global_offset + concat(pos.take(k)).len()))
}

/// No stored neighbor index exceeds `usize::MAX`.
pub open spec fn indices_fit<P>(idx: Seq<Seq<usize>>, pos: Seq<Seq<P>>, global_offset: int) -> bool {
    forall|k: int, j: int|
        0 <= k < idx.len() && 0 <= j < idx[k].len() ==> global_offset + concat(pos.take(k)).len()
            + #[trigger] idx[k][j] <= usize::MAX
}

/// Per-sample neighbor data being assembled for a [`NeighborList`].
pub struct NeighborListBuilder<P, V, S> {
    positions: Vec<Vec<P>>,
    velocities: Vec<Vec<V>>,
    volumes: Vec<Vec<S>>,
    indices: Vec<Vec<usize>>,
}

impl<P, V, S> NeighborListBuilder<P, V, S> {
    pub closed spec fn pos(&self) -> Seq<Seq<P>> {
        views(self.positions@)
    }

    pub closed spec fn vel(&self) -> Seq<Seq<V>> {
        views(self.velocities@)
    }

    pub closed spec fn vol(&self) -> Seq<Seq<S>> {
        views(self.volumes@)
    }

    pub closed spec fn idx(&self) -> Seq<Seq<usize>> {
        views(self.indices@)
    }

    /// Number of samples being assembled.
    pub closed spec fn samples(&self) -> int {
        self.indices@.len() as int
    }

    /// Every column holds one per-sample list for each sample.
    #[verifier::type_invariant]
    spec fn columns_agree(self) -> bool {
        &&& self.positions@.len() == self.indices@.len()
        &&& self.velocities@.len() == self.indices@.len()
        &&& self.volumes@.len() == self.indices@.len()
    }

    /// Takes the columns out, leaving a builder for no samples behind.
    fn take(&mut self) -> (b: Self)
        ensures
            b == *old(self),
            b.positions@.len() == b.indices@.len(),
            b.velocities@.len() == b.indices@.len(),
            b.volumes@.len() == b.indices@.len(),
    {
        proof {
            use_type_invariant(&*self);
        }
        let mut b = Self {
            positions: Vec::new(),
            velocities: Vec::new(),
            volumes: Vec::new(),
            indices: Vec::new(),
        };
        std::mem::swap(&mut b, self);
        b
    }

    /// A builder for `num_samples` samples without any neighbor data.
    pub fn new(num_samples: usize) -> (b: Self)
        ensures
            b.samples() == num_samples,
            b.pos().len() == num_samples,
            b.vel().len() == num_samples,
            b.vol().len() == num_samples,
            b.idx().len() == num_samples,
            forall|i: int| 0 <= i < num_samples ==> #[trigger] b.pos()[i].len() == 0,
            forall|i: int| 0 <= i < num_samples ==> #[trigger] b.vel()[i].len() == 0,
            forall|i: int| 0 <= i < num_samples ==> #[trigger] b.vol()[i].len() == 0,
            forall|i: int| 0 <= i < num_samples ==> #[trigger] b.idx()[i].len() == 0,
    {
        Self {
            positions: empty_lists(num_samples),
            velocities: empty_lists(num_samples),
            volumes: empty_lists(num_samples),
            indices: empty_lists(num_samples),
        }
    }

    pub fn set_positions(&mut self, id: usize, positions: Vec<P>)
        requires
            id < old(self).samples(),
        ensures
            final(self).samples() == old(self).samples(),
            final(self).pos() == old(self).pos().update(id as int, positions@),
            final(self).vel() == old(self).vel(),
            final(self).vol() == old(self).vol(),
            final(self).idx() == old(self).idx(),
    {
        let Self { positions: mut pos_column, velocities: vel_column, volumes: vol_column, indices: idx_column } = self.take();
        pos_column.set(id, positions);
        *self = Self {
            positions: pos_column,
            velocities: vel_column,
            volumes: vol_column,
            indices: idx_column,
        };
        proof {
            assert(self.pos() =~= old(self).pos().update(id as int, positions@));
        }
    }

    pub fn set_velocities(&mut self, id: usize, velocities: Vec<V>)
        requires
            id < old(self).samples(),
        ensures
            final(self).samples() == old(self).samples(),
            final(self).vel() == old(self).vel().update(id as int, velocities@),
            final(self).pos() == old(self).pos(),
            final(self).vol() == old(self).vol(),
            final(self).idx() == old(self).idx(),
    {
        let Self { positions: pos_column, velocities: mut vel_column, volumes: vol_column, indices: idx_column } = self.take();
        vel_column.set(id, velocities);
        *self = Self {
            positions: pos_column,
            velocities: vel_column,
            volumes: vol_column,
            indices: idx_column,
        };
        proof {
            assert(self.vel() =~= old(self).vel().update(id as int, velocities@));
        }
    }

    pub fn set_volumes(&mut self, id: usize, volumes: Vec<S>)
        requires
            id < old(self).samples(),
        ensures
            final(self).samples() == old(self).samples(),
            final(self).vol() == old(self).vol().update(id as int, volumes@),
            final(self).pos() == old(self).pos(),
            final(self).vel() == old(self).vel(),
            final(self).idx() == old(self).idx(),
    {
        let Self { positions: pos_column, velocities: vel_column, volumes: mut vol_column, indices: idx_column } = self.take();
        vol_column.set(id, volumes);
        *self = Self {
            positions: pos_column,
            velocities: vel_column,
            volumes: vol_column,
            indices: idx_column,
        };
        proof {
            assert(self.vol() =~= old(self).vol().update(id as int, volumes@));
        }
    }

    pub fn set_indices(&mut self, id: usize, indices: Vec<usize>)
        requires
            id < old(self).samples(),
        ensures
            final(self).samples() == old(self).samples(),
            final(self).idx() == old(self).idx().update(id as int, indices@),
            final(self).pos() == old(self).pos(),
            final(self).vel() == old(self).vel(),
            final(self).vol() == old(self).vol(),
    {
        let Self { positions: pos_column, velocities: vel_column, volumes: vol_column, indices: mut idx_column } = self.take();
        idx_column.set(id, indices);
        *self = Self {
            positions: pos_column,
            velocities: vel_column,
            volumes: vol_column,
            indices: idx_column,
        };
        proof {
            assert(self.idx() =~= old(self).idx().update(id as int, indices@));
        }
    }
}

/// Per-boundary list of fluid samples treated as neighbors, alongside
/// their interpolated position/velocity/volume on the boundary surface.
#[derive(Debug, Clone)]
pub struct NeighborList<P, V, S> {
    positions: Vec<P>,
    velocities: Vec<V>,
    volumes: Vec<S>,
    /// Flat neighbor list
    indices: Vec<usize>,
    /// Index list to point to start of the neighbor list of each sample
    offsets: Vec<usize>,
    /// Unflattened neighbor list which is necessary since there can exist many boundaries
    unflattened_positions: Vec<Vec<P>>,
    unflattened_velocities: Vec<Vec<V>>,
    unflattened_volumes: Vec<Vec<S>>,
    unflattened_indices: Vec<Vec<usize>>,
}

impl<P, V, S> NeighborList<P, V, S> {
    pub closed spec fn flat_positions(&self) -> Seq<P> {
        self.positions@
    }

    pub closed spec fn flat_velocities(&self) -> Seq<V> {
        self.velocities@
    }

    pub closed spec fn flat_volumes(&self) -> Seq<S> {
        self.volumes@
    }

    pub closed spec fn flat_indices(&self) -> Seq<usize> {
        self.indices@
    }

    pub closed spec fn pending_positions(&self) -> Seq<Seq<P>> {
        views(self.unflattened_positions@)
    }

    pub closed spec fn pending_velocities(&self) -> Seq<Seq<V>> {
        views(self.unflattened_velocities@)
    }

    pub closed spec fn pending_volumes(&self) -> Seq<Seq<S>> {
        views(self.unflattened_volumes@)
    }

    pub closed spec fn pending_indices(&self) -> Seq<Seq<usize>> {
        views(self.unflattened_indices@)
    }

    /// Number of samples whose neighbors can be looked up.
    pub closed spec fn covered(&self) -> int {
        self.offsets@.len() - 1
    }

    /// Neighbors of sample `i` as the flat array records them.
    pub closed spec fn neighbors(&self, i: int) -> Seq<usize> {
        self.indices@.subrange(self.offsets@[i] as int, self.offsets@[i + 1] as int)
    }

    /// The four pending columns cover the same samples, and the offsets
    /// ascend and point into the flat index array.
    pub closed spec fn wf(&self) -> bool {
        &&& self.unflattened_positions@.len() == self.unflattened_indices@.len()
        &&& self.unflattened_velocities@.len() == self.unflattened_indices@.len()
        &&& self.unflattened_volumes@.len() == self.unflattened_indices@.len()
        &&& forall|i: int, j: int|
            0 <= i <= j < self.offsets@.len() ==> self.offsets@[i] <= self.offsets@[j]
        &&& forall|i: int| 0 <= i < self.offsets@.len() ==> self.offsets@[i] <= self.indices@.len()
    }

    /// Number of pending samples.
    pub open spec fn samples(&self) -> int {
        self.pending_indices().len() as int
    }

    /// The flat arrays hold exactly the pending data, local indices shifted
    /// by `global_offset` and by the entries of the samples before.
    pub open spec fn flattened(&self, global_offset: int) -> bool {
        let stored = stored_indices(self.pending_indices(), self.pending_positions(), global_offset);
        &&& self.wf()
        &&& self.covered() == self.samples()
        &&& self.flat_positions() == concat(self.pending_positions())
        &&& self.flat_velocities() == concat(self.pending_velocities())
        &&& self.flat_volumes() == concat(self.pending_volumes())
        &&& self.flat_indices() == concat(stored)
        &&& forall|i: int| 0 <= i < self.covered() ==> #[trigger] self.neighbors(i) == stored[i]
    }

    /// An empty list.
    pub fn default() -> (nl: Self)
        ensures
            nl.wf(),
            nl.samples() == 0,
            nl.flat_positions().len() == 0,
            nl.covered() == -1,
    {
        Self {
            positions: Vec::new(),
            velocities: Vec::new(),
            volumes: Vec::new(),
            indices: Vec::new(),
            offsets: Vec::new(),
            unflattened_positions: Vec::new(),
            unflattened_velocities: Vec::new(),
            unflattened_volumes: Vec::new(),
            unflattened_indices: Vec::new(),
        }
    }

    /// Total number of flattened neighbor entries across all samples in
    /// this list (not the number of samples).
    pub fn len(&self) -> (n: usize)
        ensures
            n == self.flat_positions().len(),
    {
        self.positions.len()
    }

    /// Number of pending samples.
    pub fn num_samples(&self) -> (n: usize)
        requires
            self.wf(),
        ensures
            n == self.samples(),
    {
        self.unflattened_indices.len()
    }

    /// Length of the flat index array.
    pub fn indices_len(&self) -> (n: usize)
        ensures
            n == self.flat_indices().len(),
    {
        self.indices.len()
    }

    /// Length of the flat velocity array.
    pub fn velocities_len(&self) -> (n: usize)
        ensures
            n == self.flat_velocities().len(),
    {
        self.velocities.len()
    }

    /// Length of the flat volume array.
    pub fn volumes_len(&self) -> (n: usize)
        ensures
            n == self.flat_volumes().len(),
    {
        self.volumes.len()
    }

    /// Length of the offset array (samples covered plus one).
    pub fn offsets_len(&self) -> (n: usize)
        ensures
            n == self.covered() + 1,
    {
        self.offsets.len()
    }

    /// Pending local neighbor indices of sample `id`.
    pub fn pending_indices_of(&self, id: usize) -> (v: &Vec<usize>)
        requires
            id < self.pending_indices().len(),
        ensures
            v@ == self.pending_indices()[id as int],
    {
        &self.unflattened_indices[id]
    }

    /// Pending neighbor positions of sample `id`.
    pub fn pending_positions_of(&self, id: usize) -> (v: &Vec<P>)
        requires
            id < self.pending_positions().len(),
        ensures
            v@ == self.pending_positions()[id as int],
    {
        &self.unflattened_positions[id]
    }

    /// Pending neighbor velocities of sample `id`.
    pub fn pending_velocities_of(&self, id: usize) -> (v: &Vec<V>)
        requires
            id < self.pending_velocities().len(),
        ensures
            v@ == self.pending_velocities()[id as int],
    {
        &self.unflattened_velocities[id]
    }

    /// Pending neighbor volumes of sample `id`.
    pub fn pending_volumes_of(&self, id: usize) -> (v: &Vec<S>)
        requires
            id < self.pending_volumes().len(),
        ensures
            v@ == self.pending_volumes()[id as int],
    {
        &self.unflattened_volumes[id]
    }

    /// Keeps the pending data of the first `len` samples and adds empty
    /// data up to `len`.
    pub fn resize(&mut self, len: usize)
        requires
            old(self).wf(),
        ensures
            final(self).wf(),
            final(self).samples() == len,
            forall|i: int| 0 <= i < len && i < old(self).samples() ==> #[trigger] final(self).pending_indices()[i] == old(self).pending_indices()[i],
            forall|i: int| 0 <= i < len && i < old(self).samples() ==> #[trigger] final(self).pending_positions()[i] == old(self).pending_positions()[i],
            forall|i: int| 0 <= i < len && i < old(self).samples() ==> #[trigger] final(self).pending_velocities()[i] == old(self).pending_velocities()[i],
            forall|i: int| 0 <= i < len && i < old(self).samples() ==> #[trigger] final(self).pending_volumes()[i] == old(self).pending_volumes()[i],
            forall|i: int| old(self).samples() <= i < len ==> #[trigger] final(self).pending_indices()[i].len() == 0,
            forall|i: int| old(self).samples() <= i < len ==> #[trigger] final(self).pending_positions()[i].len() == 0,
            forall|i: int| old(self).samples() <= i < len ==> #[trigger] final(self).pending_velocities()[i].len() == 0,
            forall|i: int| old(self).samples() <= i < len ==> #[trigger] final(self).pending_volumes()[i].len() == 0,
            final(self).flat_positions() == old(self).flat_positions(),
            final(self).flat_indices() == old(self).flat_indices(),
    {
        resize_lists(&mut self.unflattened_positions, len);
        resize_lists(&mut self.unflattened_velocities, len);
        resize_lists(&mut self.unflattened_volumes, len);
        resize_lists(&mut self.unflattened_indices, len);
    }

    /// Empties the flat arrays, the offsets and every pending list.
    pub fn clear(&mut self)
        requires
            old(self).wf(),
        ensures
            final(self).wf(),
            final(self).samples() == old(self).samples(),
            final(self).flat_positions().len() == 0,
            final(self).flat_velocities().len() == 0,
            final(self).flat_volumes().len() == 0,
            final(self).flat_indices().len() == 0,
            final(self).covered() == -1,
            forall|i: int| 0 <= i < final(self).samples() ==> #[trigger] final(self).pending_indices()[i].len() == 0,
            forall|i: int| 0 <= i < final(self).samples() ==> #[trigger] final(self).pending_positions()[i].len() == 0,
            forall|i: int| 0 <= i < final(self).samples() ==> #[trigger] final(self).pending_velocities()[i].len() == 0,
            forall|i: int| 0 <= i < final(self).samples() ==> #[trigger] final(self).pending_volumes()[i].len() == 0,
    {
        self.positions.clear();
        self.velocities.clear();
        self.volumes.clear();
        self.indices.clear();
        self.offsets.clear();
        clear_lists(&mut self.unflattened_indices);
        clear_lists(&mut self.unflattened_positions);
        clear_lists(&mut self.unflattened_velocities);
        clear_lists(&mut self.unflattened_volumes);
    }

    /// Get indices of neighbor of sample with identifier 'id'
    pub fn get_neighbors(&self, id: usize) -> (r: &[usize])
        requires
            self.wf(),
            id < self.covered(),
        ensures
            r@ == self.neighbors(id as int),
    {
        let n = self.offsets.len();
        assert(id + 1 < n);
        let a = self.offsets[id];
        let b = self.offsets[id + 1];
        &self.indices.as_slice()[a..b]
    }

    /// Position of neighbor entry `id`.
    pub fn pos_now(&self, id: usize) -> (r: &P)
        requires
            id < self.flat_positions().len(),
        ensures
            *r == self.flat_positions()[id as int],
    {
        &self.positions[id]
    }

    /// Velocity of neighbor entry `id`.
    pub fn vel_now(&self, id: usize) -> (r: &V)
        requires
            id < self.flat_velocities().len(),
        ensures
            *r == self.flat_velocities()[id as int],
    {
        &self.velocities[id]
    }

    /// Volume of neighbor entry `id`.
    pub fn volume(&self, id: usize) -> (r: &S)
        requires
            id < self.flat_volumes().len(),
        ensures
            *r == self.flat_volumes()[id as int],
    {
        &self.volumes[id]
    }

    /// All neighbor positions, for range indexing.
    pub fn positions(&self) -> (r: &[P])
        ensures
            r@ == self.flat_positions(),
    {
        self.positions.as_slice()
    }

    /// All neighbor velocities, for range indexing.
    pub fn velocities(&self) -> (r: &[V])
        ensures
            r@ == self.flat_velocities(),
    {
        self.velocities.as_slice()
    }

    /// All neighbor volumes, for range indexing.
    pub fn volumes(&self) -> (r: &[S])
        ensures
            r@ == self.flat_volumes(),
    {
        self.volumes.as_slice()
    }
}

impl<P: Copy, V: Copy, S: Copy> NeighborList<P, V, S> {
    /// Flatten neighbor list
    pub fn flatten(&mut self, global_offset: usize)
        requires
            old(self).wf(),
            indices_fit(old(self).pending_indices(), old(self).pending_positions(), global_offset as int),
        ensures
            final(self).flattened(global_offset as int),
            final(self).pending_positions() == old(self).pending_positions(),
            final(self).pending_velocities() == old(self).pending_velocities(),
            final(self).pending_volumes() == old(self).pending_volumes(),
            final(self).pending_indices() == old(self).pending_indices(),
    {
        self.positions.clear();
        self.velocities.clear();
        self.volumes.clear();
        self.indices.clear();
        self.offsets.clear();
        let ghost up = self.pending_positions();
        let ghost uv = self.pending_velocities();
        let ghost uw = self.pending_volumes();
        let ghost ui = self.pending_indices();
        let ghost stored = stored_indices(ui, up, global_offset as int);
        let n = self.unflattened_indices.len();
        self.offsets.push(0);
        let mut k: usize = 0;
        while k < n
            invariant
                n == self.unflattened_indices@.len(),
                self.wf(),
                up == self.pending_positions(),
                uv == self.pending_velocities(),
                uw == self.pending_volumes(),
                ui == self.pending_indices(),
                stored == stored_indices(ui, up, global_offset as int),
                indices_fit(ui, up, global_offset as int),
                k <= n,
                self.offsets@.len() == k + 1,
                self.offsets@[k as int] == self.indices@.len(),
                self.positions@ == concat(up.take(k as int)),
                self.velocities@ == concat(uv.take(k as int)),
                self.volumes@ == concat(uw.take(k as int)),
                self.indices@ == concat(stored.take(k as int)),
                forall|i: int| 0 <= i < k ==> #[trigger] self.neighbors(i) == stored[i],
            decreases n - k,
        {
            let ghost start = self.indices@;
            let ghost offs = self.offsets@;
            proof {
                assert forall|i: int| 0 <= i < k implies start.subrange(
                    offs[i] as int,
                    offs[i + 1] as int,
                ) == stored[i] by {
                    assert(self.neighbors(i) == stored[i]);
                }
                assert(self.unflattened_positions@[k as int]@ == up[k as int]);
                assert(self.unflattened_velocities@[k as int]@ == uv[k as int]);
                assert(self.unflattened_volumes@[k as int]@ == uw[k as int]);
            }
            let offset_bc_of_previous_samples_neighbors = self.positions.len();
            append_copies(&mut self.positions, &self.unflattened_positions[k]);
            append_copies(&mut self.velocities, &self.unflattened_velocities[k]);
            append_copies(&mut self.volumes, &self.unflattened_volumes[k]);
            proof {
                lemma_concat_take_step(up, k as int);
                lemma_concat_take_step(uv, k as int);
                lemma_concat_take_step(uw, k as int);
            }
            let m = self.unflattened_indices[k].len();
            let ghost local = ui[k as int];
            let ghost d = global_offset + offset_bc_of_previous_samples_neighbors;
            proof {
                assert(self.unflattened_indices@[k as int]@ == local);
                assert(stored[k as int] == shifted(local, d));
            }
            let mut j: usize = 0;
            while j < m
                invariant
                    n == self.unflattened_indices@.len(),
                    ui == self.pending_indices(),
                    k < n,
                    local == ui[k as int],
                    m == local.len(),
                    j <= m,
                    d == global_offset + offset_bc_of_previous_samples_neighbors,
                    d == global_offset + concat(up.take(k as int)).len(),
                    indices_fit(ui, up, global_offset as int),
                    self.indices@ == start + shifted(local, d).take(j as int),
                    self.offsets@ == offs,
                    self.wf(),
                    up == self.pending_positions(),
                    uv == self.pending_velocities(),
                    uw == self.pending_volumes(),
                    self.positions@ == concat(up.take(k as int + 1)),
                    self.velocities@ == concat(uv.take(k as int + 1)),
                    self.volumes@ == concat(uw.take(k as int + 1)),
                    offs.len() == k + 1,
                    offs[k as int] == start.len(),
                decreases m - j,
            {
                let local_idx = self.unflattened_indices[k][j];
                proof {
                    assert(local_idx == ui[k as int][j as int]);
                    assert(global_offset + concat(up.take(k as int)).len() + ui[k as int][j as int] <= usize::MAX);
                }
                self.indices.push(global_offset + offset_bc_of_previous_samples_neighbors + local_idx);
                proof {
                    assert(shifted(local, d).take(j as int + 1) =~= shifted(local, d).take(j as int).push(
                        (local_idx + d) as usize,
                    ));
                }
                j = j + 1;
            }
            proof {
                assert(shifted(local, d).take(m as int) =~= stored[k as int]);
                lemma_concat_take_step(stored, k as int);
                assert(self.indices@.subrange(start.len() as int, self.indices@.len() as int) =~= stored[k as int]);
                assert forall|i: int| 0 <= i < k implies #[trigger] self.indices@.subrange(
                    self.offsets@[i] as int,
                    self.offsets@[i + 1] as int,
                ) == stored[i] by {
                    assert(self.offsets@[i + 1] <= start.len());
                    assert(self.indices@.subrange(self.offsets@[i] as int, self.offsets@[i + 1] as int)
                        =~= start.subrange(self.offsets@[i] as int, self.offsets@[i + 1] as int));
                }
            }
            let len = self.indices.len();
            self.offsets.push(len);
            k = k + 1;
        }
        proof {
            assert(up.take(n as int) =~= up);
            assert(uv.take(n as int) =~= uv);
            assert(uw.take(n as int) =~= uw);
            assert(stored.take(n as int) =~= stored);
        }
    }

    /// Rebuilds this neighbor list from scratch from the per-sample data in
    /// `builder`: the data is taken over and flattened in one step.
    pub fn rebuild(&mut self, global_offset: usize, builder: NeighborListBuilder<P, V, S>)
        requires
            old(self).wf(),
            indices_fit(builder.idx(), builder.pos(), global_offset as int),
        ensures
            final(self).flattened(global_offset as int),
            final(self).pending_positions() == builder.pos(),
            final(self).pending_velocities() == builder.vel(),
            final(self).pending_volumes() == builder.vol(),
            final(self).pending_indices() == builder.idx(),
    {
        proof {
            use_type_invariant(&builder);
        }
        let num_samples = builder.indices.len();
        self.resize(num_samples);
        self.clear();
        self.unflattened_positions = builder.positions;
        self.unflattened_velocities = builder.velocities;
        self.unflattened_volumes = builder.volumes;
        self.unflattened_indices = builder.indices;
        self.flatten(global_offset);
    }
}

} // verus!

verus! {

/// A stored neighbor index, less the list's global offset, addresses the
/// very entry of the flat arrays that its local index named within its
/// sample's own data.
pub proof fn lemma_stored_index_resolves<P>(
    idx: Seq<Seq<usize>>,
    pos: Seq<Seq<P>>,
    global_offset: int,
    i: int,
    j: int,
)
    requires
        idx.len() == pos.len(),
        0 <= i < idx.len(),
        0 <= j < idx[i].len(),
        idx[i][j] < pos[i].len(),
        0 <= global_offset,
        indices_fit(idx, pos, global_offset),
    ensures
        ({
            let t = stored_indices(idx, pos, global_offset)[i][j] as int;
            &&& global_offset <= t < global_offset + concat(pos).len()
            &&& concat(pos)[t - global_offset] == pos[i][idx[i][j] as int]
        }),
{
    let base = concat(pos.take(i)).len();
    assert(global_offset + base + idx[i][j] <= usize::MAX);
    assert(stored_indices(idx, pos, global_offset)[i][j] == (idx[i][j] + global_offset + base) as usize);
    lemma_concat_index(pos, i, idx[i][j] as int);
}

/// What the neighbor search found for one fluid particle near a boundary:
/// its mirrored point(s) on the boundary for the pressure terms and four
/// points per found neighbor for the viscosity terms.
pub struct PerParticleNeighbors<P, V, S> {
    pub pos: Vec<P>,
    pub vel: Vec<V>,
    pub vol: Vec<S>,
    pub v_pos: Vec<P>,
    pub v_vel: Vec<V>,
    pub v_vol: Vec<S>,
}

/// Number of entries the pressure list takes from `r`: as many as all three
/// of its columns have.
pub open spec fn normal_count<P, V, S>(r: PerParticleNeighbors<P, V, S>) -> nat {
    let a = r.pos@.len();
    let b = r.vel@.len();
    let c = r.vol@.len();
    if a <= b && a <= c {
        a
    } else if b <= c {
        b
    } else {
        c
    }
}

/// Number of entries the viscosity list takes from `r`: whole groups of four.
pub open spec fn viscosity_count<P, V, S>(r: PerParticleNeighbors<P, V, S>) -> nat {
    (4 * (r.v_pos@.len() / 4)) as nat
}

/// The local indices `0, 1, ..., m - 1`.
pub open spec fn local_range(m: nat) -> Seq<usize> {
    Seq::new(m, |j: int| j as usize)
}

/// Every found neighbor's viscosity columns hold at least the entries of
/// its groups of four positions.
pub open spec fn viscosity_complete<P, V, S>(r: PerParticleNeighbors<P, V, S>) -> bool {
    &&& r.v_vel@.len() >= viscosity_count(r)
    &&& r.v_vol@.len() >= viscosity_count(r)
}

/// Total number of entries both lists take from `results`.
pub open spec fn total_entries<P, V, S>(results: Seq<PerParticleNeighbors<P, V, S>>) -> nat
    decreases results.len(),
{
    if results.len() == 0 {
        0
    } else {
        total_entries(results.drop_last()) + normal_count(results.last()) + viscosity_count(
            results.last(),
        )
    }
}

/// The pressure and the viscosity neighbor list of one boundary.  The
/// viscosity list's neighbor indices continue after the pressure list's
/// entries, so that one index space addresses both.
pub struct BoundaryNeighborLists<P, V, S> {
    pub boundary_neighbor_list: NeighborList<P, V, S>,
    pub boundary_neighbor_list_viscosity: NeighborList<P, V, S>,
}

} // verus!

verus! {

/// Per-sample pressure-list positions taken from `results` (samples without
/// a result have none).
pub open spec fn normal_pos<P, V, S>(results: Seq<PerParticleNeighbors<P, V, S>>, n: nat) -> Seq<Seq<P>> {
    Seq::new(n, |i: int| if i < results.len() { results[i].pos@.take(normal_count(results[i]) as int) } else { Seq::empty() })
}

pub open spec fn normal_vel<P, V, S>(results: Seq<PerParticleNeighbors<P, V, S>>, n: nat) -> Seq<Seq<V>> {
    Seq::new(n, |i: int| if i < results.len() { results[i].vel@.take(normal_count(results[i]) as int) } else { Seq::empty() })
}

pub open spec fn normal_vol<P, V, S>(results: Seq<PerParticleNeighbors<P, V, S>>, n: nat) -> Seq<Seq<S>> {
    Seq::new(n, |i: int| if i < results.len() { results[i].vol@.take(normal_count(results[i]) as int) } else { Seq::empty() })
}

pub open spec fn normal_idx<P, V, S>(results: Seq<PerParticleNeighbors<P, V, S>>, n: nat) -> Seq<Seq<usize>> {
    Seq::new(n, |i: int| if i < results.len() { local_range(normal_count(results[i])) } else { Seq::empty() })
}

/// Per-sample viscosity-list positions taken from `results`.
pub open spec fn visc_pos<P, V, S>(results: Seq<PerParticleNeighbors<P, V, S>>, n: nat) -> Seq<Seq<P>> {
    Seq::new(n, |i: int| if i < results.len() { results[i].v_pos@.take(viscosity_count(results[i]) as int) } else { Seq::empty() })
}

pub open spec fn visc_vel<P, V, S>(results: Seq<PerParticleNeighbors<P, V, S>>, n: nat) -> Seq<Seq<V>> {
    Seq::new(n, |i: int| if i < results.len() { results[i].v_vel@.take(viscosity_count(results[i]) as int) } else { Seq::empty() })
}

pub open spec fn visc_vol<P, V, S>(results: Seq<PerParticleNeighbors<P, V, S>>, n: nat) -> Seq<Seq<S>> {
    Seq::new(n, |i: int| if i < results.len() { results[i].v_vol@.take(viscosity_count(results[i]) as int) } else { Seq::empty() })
}

pub open spec fn visc_idx<P, V, S>(results: Seq<PerParticleNeighbors<P, V, S>>, n: nat) -> Seq<Seq<usize>> {
    Seq::new(n, |i: int| if i < results.len() { local_range(viscosity_count(results[i])) } else { Seq::empty() })
}

/// Local indices `0..pos[i].len()` in every sample: each entry is its own neighbor.
pub open spec fn self_indexed<P>(idx: Seq<Seq<usize>>, pos: Seq<Seq<P>>) -> bool {
    &&& idx.len() == pos.len()
    &&& forall|i: int| 0 <= i < idx.len() ==> #[trigger] idx[i] == local_range(pos[i].len())
}

/// Self-indexed lists whose positions fit in `usize` leave no stored index
/// above `usize::MAX`.
pub proof fn lemma_self_indexed_fits<P>(idx: Seq<Seq<usize>>, pos: Seq<Seq<P>>, g: int)
    requires
        self_indexed(idx, pos),
        0 <= g,
        g + concat(pos).len() <= usize::MAX,
    ensures
        indices_fit(idx, pos, g),
{
    assert forall|k: int, j: int| 0 <= k < idx.len() && 0 <= j < idx[k].len() implies g + concat(
        pos.take(k),
    ).len() + #[trigger] idx[k][j] <= usize::MAX by {
        assert(idx[k] == local_range(pos[k].len()));
        lemma_concat_index(pos, k, j);
    }
}

/// The lists taken from neighbor search results number every sample's
/// entries `0, 1, ...` in order.
pub proof fn lemma_results_self_indexed<P, V, S>(rs: Seq<PerParticleNeighbors<P, V, S>>, n: nat)
    ensures
        self_indexed(normal_idx(rs, n), normal_pos(rs, n)),
        self_indexed(visc_idx(rs, n), visc_pos(rs, n)),
{
    assert forall|j: int| 0 <= j < n implies #[trigger] normal_idx(rs, n)[j] == local_range(
        normal_pos(rs, n)[j].len(),
    ) by {
        if j < rs.len() {
            assert(normal_count(rs[j]) <= rs[j].pos@.len());
            assert(normal_pos(rs, n)[j].len() == normal_count(rs[j]));
        } else {
            assert(local_range(0) =~= Seq::<usize>::empty());
        }
    }
    assert forall|j: int| 0 <= j < n implies #[trigger] visc_idx(rs, n)[j] == local_range(
        visc_pos(rs, n)[j].len(),
    ) by {
        if j < rs.len() {
            assert(viscosity_count(rs[j]) <= rs[j].v_pos@.len());
            assert(visc_pos(rs, n)[j].len() == viscosity_count(rs[j]));
        } else {
            assert(local_range(0) =~= Seq::<usize>::empty());
        }
    }
}

impl<P: Copy, V: Copy, S: Copy> BoundaryNeighborLists<P, V, S> {
    pub open spec fn wf(&self) -> bool {
        &&& self.boundary_neighbor_list.wf()
        &&& self.boundary_neighbor_list_viscosity.wf()
    }

    /// Two empty lists.
    pub fn new() -> (l: Self)
        ensures
            l.wf(),
    {
        Self {
            boundary_neighbor_list: NeighborList::default(),
            boundary_neighbor_list_viscosity: NeighborList::default(),
        }
    }

    /// Rebuilds both lists for `num_samples` fluid samples from the neighbor
    /// search results of the first samples: each found point becomes an
    /// entry of its sample, numbered within the sample; the viscosity list's
    /// indices continue after the pressure list's entries.
    pub fn write_back(&mut self, num_samples: usize, results: &Vec<PerParticleNeighbors<P, V, S>>)
        requires
            old(self).wf(),
            results@.len() <= num_samples,
            forall|i: int| 0 <= i < results@.len() ==> viscosity_complete(#[trigger] results@[i]),
            concat(normal_pos(results@, num_samples as nat)).len() + concat(
                visc_pos(results@, num_samples as nat),
            ).len() <= usize::MAX,
        ensures
            final(self).wf(),
            final(self).boundary_neighbor_list.flattened(0),
            final(self).boundary_neighbor_list.pending_positions() == normal_pos(results@, num_samples as nat),
            final(self).boundary_neighbor_list.pending_velocities() == normal_vel(results@, num_samples as nat),
            final(self).boundary_neighbor_list.pending_volumes() == normal_vol(results@, num_samples as nat),
            final(self).boundary_neighbor_list.pending_indices() == normal_idx(results@, num_samples as nat),
            final(self).boundary_neighbor_list_viscosity.flattened(
                final(self).boundary_neighbor_list.flat_positions().len() as int,
            ),
            final(self).boundary_neighbor_list_viscosity.pending_positions() == visc_pos(results@, num_samples as nat),
            final(self).boundary_neighbor_list_viscosity.pending_velocities() == visc_vel(results@, num_samples as nat),
            final(self).boundary_neighbor_list_viscosity.pending_volumes() == visc_vol(results@, num_samples as nat),
            final(self).boundary_neighbor_list_viscosity.pending_indices() == visc_idx(results@, num_samples as nat),
    {
        let ghost n = num_samples as nat;
        let ghost rs = results@;
        let mut normal = NeighborListBuilder::new(num_samples);
        let mut visc = NeighborListBuilder::new(num_samples);
        let m = results.len();
        let mut i: usize = 0;
        while i < m
            invariant
                m == rs.len(),
                rs == results@,
                m <= num_samples,
                n == num_samples,
                i <= m,
                forall|j: int| 0 <= j < rs.len() ==> viscosity_complete(#[trigger] rs[j]),
                normal.samples() == n,
                visc.samples() == n,
                normal.pos().len() == n && normal.vel().len() == n,
                normal.vol().len() == n && normal.idx().len() == n,
                visc.pos().len() == n && visc.vel().len() == n,
                visc.vol().len() == n && visc.idx().len() == n,
                forall|j: int| 0 <= j < n ==> #[trigger] normal.pos()[j] == if j < i { normal_pos(rs, n)[j] } else { Seq::empty() },
                forall|j: int| 0 <= j < n ==> #[trigger] normal.vel()[j] == if j < i { normal_vel(rs, n)[j] } else { Seq::empty() },
                forall|j: int| 0 <= j < n ==> #[trigger] normal.vol()[j] == if j < i { normal_vol(rs, n)[j] } else { Seq::empty() },
                forall|j: int| 0 <= j < n ==> #[trigger] normal.idx()[j] == if j < i { normal_idx(rs, n)[j] } else { Seq::empty() },
                forall|j: int| 0 <= j < n ==> #[trigger] visc.pos()[j] == if j < i { visc_pos(rs, n)[j] } else { Seq::empty() },
                forall|j: int| 0 <= j < n ==> #[trigger] visc.vel()[j] == if j < i { visc_vel(rs, n)[j] } else { Seq::empty() },
                forall|j: int| 0 <= j < n ==> #[trigger] visc.vol()[j] == if j < i { visc_vol(rs, n)[j] } else { Seq::empty() },
                forall|j: int| 0 <= j < n ==> #[trigger] visc.idx()[j] == if j < i { visc_idx(rs, n)[j] } else { Seq::empty() },
            decreases m - i,
        {
            let r = &results[i];
            let a = r.pos.len();
            let b = r.vel.len();
            let c = r.vol.len();
            let k = if a <= b && a <= c {
                a
            } else if b <= c {
                b
            } else {
                c
            };
            normal.set_positions(i, crate::columns::copy_prefix(&r.pos, k));
            normal.set_velocities(i, crate::columns::copy_prefix(&r.vel, k));
            normal.set_volumes(i, crate::columns::copy_prefix(&r.vol, k));
            normal.set_indices(i, crate::columns::index_range(k));
            let q = 4 * (r.v_pos.len() / 4);
            proof {
                assert(viscosity_complete(rs[i as int]));
            }
            visc.set_positions(i, crate::columns::copy_prefix(&r.v_pos, q));
            visc.set_velocities(i, crate::columns::copy_prefix(&r.v_vel, q));
            visc.set_volumes(i, crate::columns::copy_prefix(&r.v_vol, q));
            visc.set_indices(i, crate::columns::index_range(q));
            i = i + 1;
        }
        proof {
            assert(normal.pos() =~= normal_pos(rs, n));
            assert(normal.vel() =~= normal_vel(rs, n));
            assert(normal.vol() =~= normal_vol(rs, n));
            assert(normal.idx() =~= normal_idx(rs, n));
            assert(visc.pos() =~= visc_pos(rs, n));
            assert(visc.vel() =~= visc_vel(rs, n));
            assert(visc.vol() =~= visc_vol(rs, n));
            assert(visc.idx() =~= visc_idx(rs, n));
            lemma_results_self_indexed(rs, n);
            lemma_self_indexed_fits(normal.idx(), normal.pos(), 0);
        }
        self.boundary_neighbor_list.rebuild(0, normal);
        let len = self.boundary_neighbor_list.len();
        proof {
            lemma_self_indexed_fits(visc.idx(), visc.pos(), len as int);
        }
        self.boundary_neighbor_list_viscosity.rebuild(len, visc);
    }
}

} // verus!

verus! {

impl<P, V, S> BoundaryNeighborLists<P, V, S> {
    /// Number of entries of the pressure list: where the viscosity list's
    /// part of the shared index space begins.
    pub open spec fn split(&self) -> int {
        self.boundary_neighbor_list.flat_positions().len() as int
    }

    /// The position that index `t` of the shared index space addresses.
    pub open spec fn combined_position(&self, t: int) -> P {
        if t < self.split() {
            self.boundary_neighbor_list.flat_positions()[t]
        } else {
            self.boundary_neighbor_list_viscosity.flat_positions()[t - self.split()]
        }
    }

    /// The velocity that index `t` of the shared index space addresses.
    pub open spec fn combined_velocity(&self, t: int) -> V {
        if t < self.split() {
            self.boundary_neighbor_list.flat_velocities()[t]
        } else {
            self.boundary_neighbor_list_viscosity.flat_velocities()[t - self.split()]
        }
    }

    /// The volume that index `t` of the shared index space addresses.
    pub open spec fn combined_volume(&self, t: int) -> S {
        if t < self.split() {
            self.boundary_neighbor_list.flat_volumes()[t]
        } else {
            self.boundary_neighbor_list_viscosity.flat_volumes()[t - self.split()]
        }
    }

    /// Index `t` addresses an entry of one of the two lists.
    pub open spec fn addresses_entry(&self, t: int) -> bool {
        0 <= t < self.split() + self.boundary_neighbor_list_viscosity.flat_positions().len()
    }

    /// Neighbors of sample `id` in the list that `mode` asks for.
    pub fn get_neighbors(&self, id: usize, mode: crate::sph::boundary_handling::RequestMode) -> (r: &[usize])
        requires
            mode == crate::sph::boundary_handling::RequestMode::Normal ==> self.boundary_neighbor_list.wf()
                && id < self.boundary_neighbor_list.covered(),
            mode == crate::sph::boundary_handling::RequestMode::ViscosityAcceleration ==> self.boundary_neighbor_list_viscosity.wf()
                && id < self.boundary_neighbor_list_viscosity.covered(),
        ensures
            mode == crate::sph::boundary_handling::RequestMode::Normal ==> r@ == self.boundary_neighbor_list.neighbors(id as int),
            mode == crate::sph::boundary_handling::RequestMode::ViscosityAcceleration ==> r@
                == self.boundary_neighbor_list_viscosity.neighbors(id as int),
    {
        match mode {
            crate::sph::boundary_handling::RequestMode::Normal => self.boundary_neighbor_list.get_neighbors(id),
            crate::sph::boundary_handling::RequestMode::ViscosityAcceleration => {
                self.boundary_neighbor_list_viscosity.get_neighbors(id)
            },
        }
    }

    /// Position addressed by `id`: an entry of the pressure list below its
    /// length, of the viscosity list from there on.
    pub fn position(&self, id: usize) -> (p: &P)
        requires
            self.addresses_entry(id as int),
        ensures
            *p == self.combined_position(id as int),
    {
        let num_neighbors = self.boundary_neighbor_list.len();
        if id < num_neighbors {
            self.boundary_neighbor_list.pos_now(id)
        } else {
            self.boundary_neighbor_list_viscosity.pos_now(id - num_neighbors)
        }
    }

    /// Velocity addressed by `id`, split as for [`Self::position`].
    pub fn velocity(&self, id: usize) -> (v: &V)
        requires
            id < self.split() ==> id < self.boundary_neighbor_list.flat_velocities().len(),
            id >= self.split() ==> id - self.split() < self.boundary_neighbor_list_viscosity.flat_velocities().len(),
        ensures
            *v == self.combined_velocity(id as int),
    {
        let num_neighbors = self.boundary_neighbor_list.len();
        if id < num_neighbors {
            self.boundary_neighbor_list.vel_now(id)
        } else {
            self.boundary_neighbor_list_viscosity.vel_now(id - num_neighbors)
        }
    }

    /// Volume addressed by `id`, split as for [`Self::position`].
    pub fn volume(&self, id: usize) -> (s: &S)
        requires
            id < self.split() ==> id < self.boundary_neighbor_list.flat_volumes().len(),
            id >= self.split() ==> id - self.split() < self.boundary_neighbor_list_viscosity.flat_volumes().len(),
        ensures
            *s == self.combined_volume(id as int),
    {
        let num_neighbors = self.boundary_neighbor_list.len();
        if id < num_neighbors {
            self.boundary_neighbor_list.volume(id)
        } else {
            self.boundary_neighbor_list_viscosity.volume(id - num_neighbors)
        }
    }
}

/// After a write-back, every neighbor index of a sample addresses, in the
/// shared index space, the point found for that sample: the `j`-th pressure
/// neighbor of sample `i` lies below the split and addresses the `j`-th
/// pressure point of `i` (its position, velocity and volume); the `j`-th
/// viscosity neighbor lies above it and addresses the `j`-th viscosity
/// point of `i`.
pub proof fn lemma_written_back_indices_resolve<P, V, S>(
    lists: BoundaryNeighborLists<P, V, S>,
    results: Seq<PerParticleNeighbors<P, V, S>>,
    n: nat,
    i: int,
    j: int,
)
    requires
        lists.boundary_neighbor_list.flattened(0),
        lists.boundary_neighbor_list.pending_positions() == normal_pos(results, n),
        lists.boundary_neighbor_list.pending_velocities() == normal_vel(results, n),
        lists.boundary_neighbor_list.pending_volumes() == normal_vol(results, n),
        lists.boundary_neighbor_list.pending_indices() == normal_idx(results, n),
        lists.boundary_neighbor_list_viscosity.flattened(lists.split()),
        lists.boundary_neighbor_list_viscosity.pending_positions() == visc_pos(results, n),
        lists.boundary_neighbor_list_viscosity.pending_velocities() == visc_vel(results, n),
        lists.boundary_neighbor_list_viscosity.pending_volumes() == visc_vol(results, n),
        lists.boundary_neighbor_list_viscosity.pending_indices() == visc_idx(results, n),
        forall|k: int| 0 <= k < results.len() ==> viscosity_complete(#[trigger] results[k]),
        lists.split() + lists.boundary_neighbor_list_viscosity.flat_positions().len() <= usize::MAX,
        0 <= i < n,
    ensures
        0 <= j < lists.boundary_neighbor_list.neighbors(i).len() ==> {
            let t = lists.boundary_neighbor_list.neighbors(i)[j] as int;
            &&& t < lists.split()
            &&& lists.combined_position(t) == normal_pos(results, n)[i][j]
            &&& lists.combined_velocity(t) == normal_vel(results, n)[i][j]
            &&& lists.combined_volume(t) == normal_vol(results, n)[i][j]
        },
        0 <= j < lists.boundary_neighbor_list_viscosity.neighbors(i).len() ==> {
            let t = lists.boundary_neighbor_list_viscosity.neighbors(i)[j] as int;
            &&& lists.split() <= t
            &&& lists.addresses_entry(t)
            &&& lists.combined_position(t) == visc_pos(results, n)[i][j]
            &&& lists.combined_velocity(t) == visc_vel(results, n)[i][j]
            &&& lists.combined_volume(t) == visc_vol(results, n)[i][j]
        },
{
    let a = lists.boundary_neighbor_list;
    let b = lists.boundary_neighbor_list_viscosity;
    let l = lists.split();
    let np = normal_pos(results, n);
    let vp = visc_pos(results, n);
    lemma_results_self_indexed(results, n);
    lemma_self_indexed_fits(normal_idx(results, n), np, 0);
    lemma_self_indexed_fits(visc_idx(results, n), vp, l);
    assert forall|k: int| 0 <= k < np.len() implies #[trigger] np[k].len() == normal_vel(results, n)[k].len()
        && np[k].len() == normal_vol(results, n)[k].len() by {
        if k < results.len() {
            assert(normal_count(results[k]) <= results[k].pos@.len());
            assert(normal_count(results[k]) <= results[k].vel@.len());
            assert(normal_count(results[k]) <= results[k].vol@.len());
        }
    }
    assert forall|k: int| 0 <= k < vp.len() implies #[trigger] vp[k].len() == visc_vel(results, n)[k].len()
        && vp[k].len() == visc_vol(results, n)[k].len() by {
        if k < results.len() {
            assert(viscosity_count(results[k]) <= results[k].v_pos@.len());
            assert(viscosity_complete(results[k]));
        }
    }
    if 0 <= j < a.neighbors(i).len() {
        assert(a.neighbors(i) == stored_indices(a.pending_indices(), a.pending_positions(), 0)[i]);
        if i < results.len() {
            assert(normal_count(results[i]) <= results[i].pos@.len());
        }
        assert(normal_idx(results, n)[i][j] == j as usize);
        lemma_stored_index_resolves(normal_idx(results, n), np, 0, i, j);
        let base = concat(np.take(i)).len();
        assert(base + j <= usize::MAX);
        assert(a.neighbors(i)[j] == (j + base) as usize);
        lemma_concat_aligned(np, normal_vel(results, n), i, j);
        lemma_concat_aligned(np, normal_vol(results, n), i, j);
    }
    if 0 <= j < b.neighbors(i).len() {
        assert(b.neighbors(i) == stored_indices(b.pending_indices(), b.pending_positions(), l)[i]);
        if i < results.len() {
            assert(viscosity_count(results[i]) <= results[i].v_pos@.len());
        }
        assert(visc_idx(results, n)[i][j] == j as usize);
        lemma_stored_index_resolves(visc_idx(results, n), vp, l, i, j);
        let base = concat(vp.take(i)).len();
        assert(l + base + j <= usize::MAX);
        assert(b.neighbors(i)[j] == (j + l + base) as usize);
        lemma_concat_aligned(vp, visc_vel(results, n), i, j);
        lemma_concat_aligned(vp, visc_vol(results, n), i, j);
    }
}

} // verus!

verus! {

/// A rebuilt (or flattened) list is determined by its pending data and its
/// global offset alone: nothing of an earlier state of the list survives,
/// and rebuilding twice from the same data gives the same list.
pub proof fn lemma_flattened_depends_only_on_pending<P, V, S>(
    a: NeighborList<P, V, S>,
    b: NeighborList<P, V, S>,
    global_offset: int,
)
    requires
        a.flattened(global_offset),
        b.flattened(global_offset),
        a.pending_positions() == b.pending_positions(),
        a.pending_velocities() == b.pending_velocities(),
        a.pending_volumes() == b.pending_volumes(),
        a.pending_indices() == b.pending_indices(),
    ensures
        a.flat_positions() == b.flat_positions(),
        a.flat_velocities() == b.flat_velocities(),
        a.flat_volumes() == b.flat_volumes(),
        a.flat_indices() == b.flat_indices(),
        a.covered() == b.covered(),
        forall|i: int| 0 <= i < a.covered() ==> #[trigger] a.neighbors(i) == b.neighbors(i),
{
}

} // verus!
