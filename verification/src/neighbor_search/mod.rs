//! Neighbor lists and the integer side of neighbor search: spatial hashing
//! of grid cells and Morton codes.
pub mod octree;
pub mod spatial_hashing;

pub use spatial_hashing::{GridCell, SpatialHashing, UniformGrid};

use vstd::prelude::*;

verus! {

/// Concatenation of the lists in `u`, in order.
pub open spec fn concat<T>(u: Seq<Seq<T>>) -> Seq<T>
    decreases u.len(),
{
    if u.len() == 0 {
        Seq::empty()
    } else {
        concat(u.drop_last()) + u.last()
    }
}

/// Taking one more list appends that list to the concatenation.
pub proof fn lemma_concat_take_step<T>(s: Seq<Seq<T>>, k: int)
    requires
        0 <= k < s.len(),
    ensures
        concat(s.take(k + 1)) == concat(s.take(k)) + s[k],
{
    assert(s.take(k + 1).drop_last() =~= s.take(k));
}

/// An element of one of the lists is an element of their concatenation.
pub proof fn lemma_concat_contains<T>(s: Seq<Seq<T>>, k: int, x: T)
    requires
        0 <= k < s.len(),
        s[k].contains(x),
    ensures
        concat(s).contains(x),
    decreases s.len(),
{
    if k == s.len() - 1 {
        let i = choose|i: int| 0 <= i < s[k].len() && s[k][i] == x;
        assert((concat(s.drop_last()) + s.last())[concat(s.drop_last()).len() + i] == x);
    } else {
        lemma_concat_contains(s.drop_last(), k, x);
        let i = choose|i: int| 0 <= i < concat(s.drop_last()).len() && concat(s.drop_last())[i] == x;
        assert((concat(s.drop_last()) + s.last())[i] == x);
    }
}

/// An element of the concatenation comes from one of the lists.
pub proof fn lemma_concat_member<T>(s: Seq<Seq<T>>, x: T)
    requires
        concat(s).contains(x),
    ensures
        exists|k: int| 0 <= k < s.len() && #[trigger] s[k].contains(x),
    decreases s.len(),
{
    if s.len() == 0 {
        assert(concat(s).len() == 0);
    } else {
        let c = concat(s.drop_last());
        let i = choose|i: int| 0 <= i < concat(s).len() && concat(s)[i] == x;
        if i < c.len() {
            assert(c[i] == x);
            lemma_concat_member(s.drop_last(), x);
            let k = choose|k: int| 0 <= k < s.drop_last().len() && #[trigger] s.drop_last()[k].contains(x);
            assert(s[k].contains(x));
        } else {
            assert(s.last()[i - c.len()] == x);
            assert(s[s.len() - 1].contains(x));
        }
    }
}

/// Concatenating more of the lists never gives fewer entries.
pub proof fn lemma_concat_take_monotonic<T>(s: Seq<Seq<T>>, a: int, b: int)
    requires
        0 <= a <= b <= s.len(),
    ensures
        concat(s.take(a)).len() <= concat(s.take(b)).len(),
    decreases b - a,
{
    if a < b {
        lemma_concat_take_step(s, b - 1);
        lemma_concat_take_monotonic(s, a, b - 1);
    }
}

/// Entry `j` of list `i` sits in the concatenation right after the entries
/// of the lists before `i`.
pub proof fn lemma_concat_index<T>(s: Seq<Seq<T>>, i: int, j: int)
    requires
        0 <= i < s.len(),
        0 <= j < s[i].len(),
    ensures
        concat(s.take(i)).len() + j < concat(s).len(),
        concat(s)[concat(s.take(i)).len() + j] == s[i][j],
    decreases s.len(),
{
    lemma_concat_take_step(s, i);
    lemma_concat_take_monotonic(s, i + 1, s.len() as int);
    assert(s.take(s.len() as int) =~= s);
    if i < s.len() - 1 {
        lemma_concat_index(s.drop_last(), i, j);
        assert(s.drop_last().take(i) =~= s.take(i));
        assert(s.drop_last()[i] == s[i]);
    } else {
        assert(s.take(i) =~= s.drop_last());
    }
}

/// Neighbors of samples, stored in one flat array.
///
/// `unflattened_indices[i]` holds the neighbors of sample `i` while a list is
/// being filled; [`NeighborList::flatten`] copies them into `indices`, and
/// `offsets[i]..offsets[i + 1]` is the range of `indices` that belongs to
/// sample `i`.
#[derive(Debug, Clone)]
pub struct NeighborList {
    /// Flat neighbor list: indices of neighboring samples
    indices: Vec<usize>,
    /// Index list to point to start of the neighbor list of each sample
    offsets: Vec<usize>,
    /// Unflattened neighbor list which is necessary for parallelization
    unflattened_indices: Vec<Vec<usize>>,
}

impl NeighborList {
    /// The per-sample lists being filled.
    pub closed spec fn pending(&self) -> Seq<Seq<usize>> {
        self.unflattened_indices@.map_values(|v: Vec<usize>| v@)
    }

    /// The flat array of neighbor indices.
    pub closed spec fn flat(&self) -> Seq<usize> {
        self.indices@
    }

    /// Number of samples whose neighbors can be looked up.
    pub closed spec fn covered(&self) -> int {
        self.offsets@.len() - 1
    }

    /// The offsets ascend and point into the flat array.
    pub closed spec fn wf(&self) -> bool {
        &&& forall|i: int, j: int|
            0 <= i <= j < self.offsets@.len() ==> self.offsets@[i] <= self.offsets@[j]
        &&& forall|i: int| 0 <= i < self.offsets@.len() ==> self.offsets@[i] <= self.indices@.len()
    }

    /// Neighbors of sample `i` as the flat array records them.
    pub closed spec fn neighbors(&self, i: int) -> Seq<usize> {
        self.indices@.subrange(self.offsets@[i] as int, self.offsets@[i + 1] as int)
    }

    /// The flat array holds exactly the pending lists.
    pub open spec fn flattened(&self) -> bool {
        &&& self.wf()
        &&& self.covered() == self.pending().len()
        &&& self.flat() == concat(self.pending())
        &&& forall|i: int| 0 <= i < self.covered() ==> #[trigger] self.neighbors(i) == self.pending()[i]
    }

    /// A list for `len` samples, none of which has neighbors.
    pub fn new(len: usize) -> (nl: Self)
        requires
            len < usize::MAX,
        ensures
            nl.wf(),
            nl.covered() == len,
            nl.pending().len() == len,
            forall|i: int| 0 <= i < len ==> #[trigger] nl.pending()[i].len() == 0,
            forall|i: int| 0 <= i < len ==> #[trigger] nl.neighbors(i).len() == 0,
    {
        let mut indices: Vec<usize> = Vec::new();
        let mut offsets: Vec<usize> = Vec::new();
        let mut unflattened: Vec<Vec<usize>> = Vec::new();
        let mut k: usize = 0;
        while k < len
            invariant
                k <= len,
                indices@.len() == k,
                offsets@.len() == k,
                unflattened@.len() == k,
                forall|i: int| 0 <= i < k ==> offsets@[i] == 0,
                forall|i: int| 0 <= i < k ==> (#[trigger] unflattened@[i])@.len() == 0,
            decreases len - k,
        {
            indices.push(0);
            offsets.push(0);
            unflattened.push(Vec::new());
            k = k + 1;
        }
        offsets.push(0);
        let nl = Self { indices, offsets, unflattened_indices: unflattened };
        assert forall|i: int| 0 <= i < len implies #[trigger] nl.neighbors(i).len() == 0 by {
            assert(nl.offsets@[i] == 0 && nl.offsets@[i + 1] == 0);
        }
        nl
    }

    /// An empty list for no samples.
    pub fn default() -> (nl: Self)
        ensures
            nl.wf(),
            nl.covered() == 0,
            nl.pending().len() == 0,
    {
        Self::new(0)
    }

    /// Number of per-sample lists being filled.
    pub fn num_samples(&self) -> (n: usize)
        ensures
            n == self.pending().len(),
    {
        self.unflattened_indices.len()
    }

    /// Length of the flat neighbor array.
    pub fn indices_len(&self) -> (n: usize)
        ensures
            n == self.flat().len(),
    {
        self.indices.len()
    }

    /// Length of the offset array (samples covered plus one).
    pub fn offsets_len(&self) -> (n: usize)
        ensures
            n == self.covered() + 1,
    {
        self.offsets.len()
    }

    /// The pending neighbors of sample `id`.
    pub fn pending_neighbors(&self, id: usize) -> (v: &Vec<usize>)
        requires
            id < self.pending().len(),
        ensures
            v@ == self.pending()[id as int],
    {
        &self.unflattened_indices[id]
    }

    /// Sets the pending neighbors of sample `id`.
    pub fn set_neighbors(&mut self, id: usize, neighbors: Vec<usize>)
        requires
            id < old(self).pending().len(),
        ensures
            final(self).pending() == old(self).pending().update(id as int, neighbors@),
            final(self).flat() == old(self).flat(),
            final(self).covered() == old(self).covered(),
            forall|i: int| 0 <= i < old(self).covered() ==> final(self).neighbors(i) == old(self).neighbors(i),
            old(self).wf() ==> final(self).wf(),
    {
        self.unflattened_indices.set(id, neighbors);
        proof {
            assert(self.pending() =~= old(self).pending().update(id as int, neighbors@));
        }
    }

    /// Keeps the pending lists of the first `len` samples and adds empty
    /// ones up to `len`.
    pub fn resize(&mut self, len: usize)
        ensures
            final(self).pending().len() == len,
            forall|i: int| 0 <= i < len && i < old(self).pending().len() ==> #[trigger] final(self).pending()[i] == old(self).pending()[i],
            forall|i: int| old(self).pending().len() <= i < len ==> #[trigger] final(self).pending()[i].len() == 0,
            final(self).flat() == old(self).flat(),
            final(self).covered() == old(self).covered(),
            forall|i: int| 0 <= i < old(self).covered() ==> final(self).neighbors(i) == old(self).neighbors(i),
            old(self).wf() ==> final(self).wf(),
    {
        if len <= self.unflattened_indices.len() {
            self.unflattened_indices.truncate(len);
        } else {
            let ghost before = self.unflattened_indices@;
            while self.unflattened_indices.len() < len
                invariant
                    before.len() <= self.unflattened_indices@.len() <= len,
                    forall|i: int| 0 <= i < before.len() ==> self.unflattened_indices@[i] == before[i],
                    forall|i: int| before.len() <= i < self.unflattened_indices@.len() ==> (#[trigger] self.unflattened_indices@[i])@.len() == 0,
                    self.indices@ == old(self).indices@,
                    self.offsets@ == old(self).offsets@,
                decreases len - self.unflattened_indices@.len(),
            {
                self.unflattened_indices.push(Vec::new());
            }
        }
    }

    /// Empties the flat array, the offsets and every pending list.
    pub fn clear(&mut self)
        ensures
            final(self).flat().len() == 0,
            final(self).covered() == -1,
            final(self).pending().len() == old(self).pending().len(),
            forall|i: int| 0 <= i < final(self).pending().len() ==> #[trigger] final(self).pending()[i].len() == 0,
            final(self).wf(),
    {
        self.indices.clear();
        self.offsets.clear();
        let n = self.unflattened_indices.len();
        let mut k: usize = 0;
        while k < n
            invariant
                n == self.unflattened_indices@.len(),
                k <= n,
                forall|i: int| 0 <= i < k ==> (#[trigger] self.unflattened_indices@[i])@.len() == 0,
                self.indices@.len() == 0,
                self.offsets@.len() == 0,
            decreases n - k,
        {
            self.unflattened_indices.set(k, Vec::new());
            k = k + 1;
        }
    }

    /// Copies the pending lists, in sample order, into the flat array.
    pub fn flatten(&mut self)
        ensures
            final(self).flattened(),
            final(self).pending() == old(self).pending(),
    {
        self.indices.clear();
        self.offsets.clear();
        let n = self.unflattened_indices.len();
        let ghost u = self.pending();
        self.offsets.push(0);
        let mut k: usize = 0;
        while k < n
            invariant
                n == self.unflattened_indices@.len(),
                u == self.pending(),
                k <= n,
                self.offsets@.len() == k + 1,
                self.offsets@[k as int] == self.indices@.len(),
                self.indices@ == concat(u.take(k as int)),
                forall|i: int, j: int|
                    0 <= i <= j < self.offsets@.len() ==> self.offsets@[i] <= self.offsets@[j],
                forall|i: int| 0 <= i < self.offsets@.len() ==> self.offsets@[i] <= self.indices@.len(),
                forall|i: int| 0 <= i < k ==> #[trigger] self.neighbors(i) == u[i],
            decreases n - k,
        {
            let ghost start = self.indices@;
            let ghost offs = self.offsets@;
            proof {
                assert forall|i: int| 0 <= i < k implies start.subrange(
                    offs[i] as int,
                    offs[i + 1] as int,
                ) == u[i] by {
                    assert(self.neighbors(i) == u[i]);
                }
            }
            let m = self.unflattened_indices[k].len();
            let mut j: usize = 0;
            while j < m
                invariant
                    n == self.unflattened_indices@.len(),
                    u == self.pending(),
                    k < n,
                    m == u[k as int].len(),
                    j <= m,
                    self.indices@ == start + u[k as int].take(j as int),
                    self.offsets@ == offs,
                decreases m - j,
            {
                let x = self.unflattened_indices[k][j];
                self.indices.push(x);
                proof {
                    assert(u[k as int].take(j as int + 1) =~= u[k as int].take(j as int).push(x));
                }
                j = j + 1;
            }
            proof {
                assert(u[k as int].take(m as int) =~= u[k as int]);
                assert(u.take(k as int + 1).drop_last() =~= u.take(k as int));
                assert(self.indices@.subrange(start.len() as int, self.indices@.len() as int) =~= u[k as int]);
                assert forall|i: int| 0 <= i < k implies #[trigger] self.indices@.subrange(
                    self.offsets@[i] as int,
                    self.offsets@[i + 1] as int,
                ) == u[i] by {
                    assert(self.offsets@[i + 1] <= start.len());
                    assert(self.indices@.subrange(self.offsets@[i] as int, self.offsets@[i + 1] as int)
                        =~= start.subrange(self.offsets@[i] as int, self.offsets@[i + 1] as int));
                }
            }
            let len = self.indices.len();
            self.offsets.push(len);
            k = k + 1;
        }
        proof {
            assert(u.take(n as int) =~= u);
        }
    }

    /// Rebuilds the list from scratch: one entry of `per_sample` per sample,
    /// holding that sample's neighbors.
    pub fn rebuild(&mut self, per_sample: Vec<Vec<usize>>)
        ensures
            final(self).flattened(),
            final(self).pending() == per_sample@.map_values(|v: Vec<usize>| v@),
    {
        let len = per_sample.len();
        self.resize(len);
        self.clear();
        self.unflattened_indices = per_sample;
        self.flatten();
    }

    /// Indices of the neighbors of sample `id`.
    pub fn get_neighbors(&self, id: usize) -> (r: &[usize])
        requires
            self.wf(),
            id < self.covered(),
        ensures
            r@ == self.neighbors(id as int),
    {
        let n = self.offsets.len();
        assert(id + 1 < n);
        let a = self.offsets[id];
        let b = self.offsets[id + 1];
        &self.indices.as_slice()[a..b]
    }
}

} // verus!

verus! {

/// Flattening is determined by the pending lists alone: two flattened lists
/// with the same pending lists hold the same flat array and give the same
/// neighbors for every sample.  In particular flattening a second time
/// changes nothing.
pub proof fn lemma_flatten_depends_only_on_pending(a: NeighborList, b: NeighborList)
    requires
        a.flattened(),
        b.flattened(),
        a.pending() == b.pending(),
    ensures
        a.flat() == b.flat(),
        a.covered() == b.covered(),
        forall|i: int| 0 <= i < a.covered() ==> #[trigger] a.neighbors(i) == b.neighbors(i),
{
}

} // verus!

verus! {

/// Lists of lists whose members hold equally many entries have
/// concatenations of equal length.
pub proof fn lemma_concat_len_eq<A, B>(u: Seq<Seq<A>>, w: Seq<Seq<B>>)
    requires
        u.len() == w.len(),
        forall|k: int| 0 <= k < u.len() ==> #[trigger] u[k].len() == w[k].len(),
    ensures
        concat(u).len() == concat(w).len(),
    decreases u.len(),
{
    if u.len() > 0 {
        lemma_concat_len_eq(u.drop_last(), w.drop_last());
    }
}

/// Entry `j` of list `i` sits at the same place in the concatenation of
/// `w` as in that of any `u` whose lists hold as many entries as `w`'s.
pub proof fn lemma_concat_aligned<A, B>(u: Seq<Seq<A>>, w: Seq<Seq<B>>, i: int, j: int)
    requires
        u.len() == w.len(),
        forall|k: int| 0 <= k < u.len() ==> #[trigger] u[k].len() == w[k].len(),
        0 <= i < u.len(),
        0 <= j < u[i].len(),
    ensures
        concat(u.take(i)).len() == concat(w.take(i)).len(),
        concat(u.take(i)).len() + j < concat(w).len(),
        concat(w)[concat(u.take(i)).len() + j] == w[i][j],
{
    assert forall|k: int| 0 <= k < u.take(i).len() implies #[trigger] u.take(i)[k].len() == w.take(
        i,
    )[k].len() by {
        assert(u.take(i)[k] == u[k]);
        assert(w.take(i)[k] == w[k]);
    }
    lemma_concat_len_eq(u.take(i), w.take(i));
    lemma_concat_index(w, i, j);
}

} // verus!
