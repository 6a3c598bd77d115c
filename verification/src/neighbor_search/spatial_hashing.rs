//! Spatial hashing: samples are filed under the hash of the uniform-grid
//! cell that contains them, so that the samples of a cell and of the cells
//! around it can be looked up quickly.
//!
//! Which cell a position falls into, and whether a candidate really lies in
//! range, are floating-point questions decided by the caller; this module
//! keeps the cell table and gathers the candidates of a block of cells.
use rustc_hash::{FxBuildHasher, FxHashMap};
use vstd::prelude::*;

use crate::neighbor_search::{
    concat, lemma_concat_contains, lemma_concat_member, lemma_concat_take_step,
};

verus! {

#[verifier::external_type_specification]
#[verifier::external_body]
pub struct ExFxBuildHasher(FxBuildHasher);

/// A cell of the uniform grid.
#[derive(Debug, Clone, Copy, PartialEq, Eq, Structural)]
pub struct GridCell {
    pub x: i32,
    pub y: i32,
    pub z: i32,
}

pub const P1: u64 = 73856093;

pub const P2: u64 = 19349663;

pub const P3: u64 = 83492791;

/// The reversible map from signed to unsigned integers: even numbers for
/// the non-negative ones, odd numbers for the negative ones.
pub open spec fn uint_of(k: int) -> int {
    if k >= 0 {
        2 * k
    } else {
        -2 * k + 1
    }
}

/// Hash of the grid cell `(k, l, m)`.
pub open spec fn hash_of(k: int, l: int, m: int) -> u64 {
    ((uint_of(k) * P1) as u64) ^ ((uint_of(l) * P2) as u64) ^ ((uint_of(m) * P3) as u64)
}

pub open spec fn cell_hash(c: GridCell) -> u64 {
    hash_of(c.x as int, c.y as int, c.z as int)
}

/// The samples filed under `key`.
pub open spec fn entries(table: Map<u64, Vec<usize>>, key: u64) -> Seq<usize> {
    if table.dom().contains(key) {
        table[key]@
    } else {
        Seq::empty()
    }
}

/// `table` with sample `id` appended under `key`.
pub open spec fn file_under(table: Map<u64, Vec<usize>>, key: u64, id: usize) -> Map<u64, Seq<usize>> {
    table.map_values(|v: Vec<usize>| v@).insert(key, entries(table, key).push(id))
}

/// The table as plain sequences.
pub open spec fn contents(table: Map<u64, Vec<usize>>) -> Map<u64, Seq<usize>> {
    table.map_values(|v: Vec<usize>| v@)
}

/// `table` after filing sample `i` under the hash of `cells[i]`, for every
/// `i` in order.
pub open spec fn populated(table: Map<u64, Seq<usize>>, cells: Seq<GridCell>) -> Map<u64, Seq<usize>>
    decreases cells.len(),
{
    if cells.len() == 0 {
        table
    } else {
        let t = populated(table, cells.drop_last());
        let key = cell_hash(cells.last());
        let old_entries = if t.dom().contains(key) {
            t[key]
        } else {
            Seq::empty()
        };
        t.insert(key, old_entries.push((cells.len() - 1) as usize))
    }
}

/// The samples filed under `key` in a table of plain sequences.
pub open spec fn seq_entries(table: Map<u64, Seq<usize>>, key: u64) -> Seq<usize> {
    if table.dom().contains(key) {
        table[key]
    } else {
        Seq::empty()
    }
}

/// Number of cells along one axis of the block of cells within `reach`.
pub open spec fn side(reach: int) -> nat {
    if reach >= 0 {
        (2 * reach + 1) as nat
    } else {
        0
    }
}

/// Candidates of the cells `(c.x + a - r, c.y + b - r, c.z + k - r)` for
/// `k` ascending.
pub open spec fn column(table: Map<u64, Seq<usize>>, c: GridCell, r: int, a: int, b: int) -> Seq<usize> {
    concat(
        Seq::new(
            side(r),
            |k: int| seq_entries(table, hash_of(c.x + a - r, c.y + b - r, c.z + k - r)),
        ),
    )
}

/// Candidates of the cells with first coordinate `c.x + a - r`.
pub open spec fn slab(table: Map<u64, Seq<usize>>, c: GridCell, r: int, a: int) -> Seq<usize> {
    concat(Seq::new(side(r), |b: int| column(table, c, r, a, b)))
}

/// Candidates of every cell within `r` cells of `c` along each axis, the
/// cells visited in lexicographic order of their offsets.
pub open spec fn block(table: Map<u64, Seq<usize>>, c: GridCell, r: int) -> Seq<usize> {
    concat(Seq::new(side(r), |a: int| slab(table, c, r, a)))
}

/// The block of cells within `reach` of `c` stays inside the range of `i32`.
pub open spec fn block_fits(c: GridCell, reach: int) -> bool {
    &&& i32::MIN <= c.x - reach && c.x + reach <= i32::MAX
    &&& i32::MIN <= c.y - reach && c.y + reach <= i32::MAX
    &&& i32::MIN <= c.z - reach && c.z + reach <= i32::MAX
}

/// Whether the block of cells within `reach` of `cell` stays inside the
/// range of `i32`, so that every cell of it can be named.
pub fn block_within_bounds(cell: GridCell, reach: i32) -> (b: bool)
    ensures
        b == block_fits(cell, reach as int),
{
    let r = reach as i64;
    let lo = i32::MIN as i64;
    let hi = i32::MAX as i64;
    let x = cell.x as i64;
    let y = cell.y as i64;
    let z = cell.z as i64;
    lo <= x - r && x + r <= hi && lo <= y - r && y + r <= hi && lo <= z - r && z + r <= hi
}

/// Reversibly map signed integers to unsigned integers
pub fn map_int_to_uint(k: i32) -> (u: u64)
    ensures
        u == uint_of(k as int),
{
    if k >= 0 {
        (k as u64) * 2
    } else {
        ((0i64 - k as i64) as u64) * 2 + 1
    }
}

/// Hash function for hashing triples of integers (k,l,m),
/// that define a position on the grid
///
/// Handles negative and positive positions on grid
pub fn hash(k: i32, l: i32, m: i32) -> (h: u64)
    ensures
        h == hash_of(k as int, l as int, m as int),
{
    let unsigned_k = map_int_to_uint(k);
    let unsigned_l = map_int_to_uint(l);
    let unsigned_m = map_int_to_uint(m);
    assert(unsigned_k * P1 <= u64::MAX) by (nonlinear_arith)
        requires
            unsigned_k <= 0x1_0000_0001u64,
    ;
    assert(unsigned_l * P2 <= u64::MAX) by (nonlinear_arith)
        requires
            unsigned_l <= 0x1_0000_0001u64,
    ;
    assert(unsigned_m * P3 <= u64::MAX) by (nonlinear_arith)
        requires
            unsigned_m <= 0x1_0000_0001u64,
    ;
    (unsigned_k * P1) ^ (unsigned_l * P2) ^ (unsigned_m * P3)
}

/// Takes the list filed under `key` out of the table.
///
/// Calls `HashMap::remove`; claims that it returns the entry under `key`
/// exactly when there is one, and that the table afterwards is the table
/// before without `key`, every other entry unchanged.
#[verifier::external_body]
fn take_samples(table: &mut FxHashMap<u64, Vec<usize>>, key: u64) -> (r: Option<Vec<usize>>)
    ensures
        final(table)@ == old(table)@.remove(key),
        match r {
            Some(v) => old(table)@.dom().contains(key) && v == old(table)@[key],
            None => !old(table)@.dom().contains(key),
        },
{
    table.remove(&key)
}

/// Files the list `samples` under `key`.
///
/// Calls `HashMap::insert`; claims that the table afterwards maps `key` to
/// `samples`, every other entry unchanged.
#[verifier::external_body]
fn put_samples(table: &mut FxHashMap<u64, Vec<usize>>, key: u64, samples: Vec<usize>)
    ensures
        final(table)@ == old(table)@.insert(key, samples),
{
    table.insert(key, samples);
}

/// Files sample `id` under `key`, creating the entry if needed.
fn file_sample(table: &mut FxHashMap<u64, Vec<usize>>, key: u64, id: usize)
    ensures
        contents(final(table)@) == file_under(old(table)@, key, id),
{
    let mut samples = match take_samples(table, key) {
        Some(v) => v,
        None => Vec::new(),
    };
    samples.push(id);
    put_samples(table, key, samples);
    proof {
        assert(contents(table@) =~= file_under(old(table)@, key, id));
    }
}

/// The samples filed under `key`, if any.
///
/// Calls `HashMap::get`; claims that it finds an entry exactly when `key`
/// is in the table, and then returns that entry.
#[verifier::external_body]
fn samples_under(table: &FxHashMap<u64, Vec<usize>>, key: u64) -> (r: Option<&Vec<usize>>)
    ensures
        match r {
            Some(v) => table@.dom().contains(key) && *v == table@[key],
            None => !table@.dom().contains(key),
        },
{
    table.get(&key)
}

/// Lists of samples filed under the hashes of their grid cells.
pub struct CellTable {
    cells: FxHashMap<u64, Vec<usize>>,
}

impl CellTable {
    /// The filed samples, per key.
    pub closed spec fn view_table(&self) -> Map<u64, Seq<usize>> {
        contents(self.cells@)
    }

    /// An empty table.
    pub fn new() -> (t: Self)
        ensures
            t.view_table() == Map::<u64, Seq<usize>>::empty(),
    {
        let t = Self { cells: FxHashMap::default() };
        proof {
            assert(contents(t.cells@) =~= Map::<u64, Seq<usize>>::empty());
        }
        t
    }

    pub fn is_empty(&self) -> (b: bool)
        ensures
            b == (self.view_table() == Map::<u64, Seq<usize>>::empty()),
    {
        let b = self.cells.is_empty();
        proof {
            if b {
                assert(self.view_table() =~= Map::<u64, Seq<usize>>::empty());
            } else {
                assert(!self.cells@.is_empty());
                let k = choose|k: u64| self.cells@.dom().contains(k);
                assert(self.view_table().dom().contains(k));
            }
        }
        b
    }

    /// Forgets every filed sample.
    pub fn clear(&mut self)
        ensures
            final(self).view_table() == Map::<u64, Seq<usize>>::empty(),
    {
        self.cells.clear();
        proof {
            assert(contents(self.cells@) =~= Map::<u64, Seq<usize>>::empty());
        }
    }

    /// The samples filed under `key` (empty when there are none).
    pub fn get(&self, key: u64) -> (r: Option<&Vec<usize>>)
        ensures
            match r {
                Some(v) => self.view_table().dom().contains(key) && v@ == self.view_table()[key],
                None => !self.view_table().dom().contains(key),
            },
    {
        samples_under(&self.cells, key)
    }

    /// Files sample `id` under the hash of `cell`.
    pub fn insert(&mut self, cell: GridCell, id: usize)
        ensures
            final(self).view_table() == old(self).view_table().insert(
                cell_hash(cell),
                seq_entries(old(self).view_table(), cell_hash(cell)).push(id),
            ),
    {
        let key = hash(cell.x, cell.y, cell.z);
        proof {
            assert(entries(self.cells@, key) == seq_entries(self.view_table(), key));
        }
        file_sample(&mut self.cells, key, id);
    }

    /// Files sample `i` under the hash of `cells[i]`, for every `i` in order.
    pub fn populate(&mut self, cells: &[GridCell])
        ensures
            final(self).view_table() == populated(old(self).view_table(), cells@),
    {
        let n = cells.len();
        let mut i: usize = 0;
        while i < n
            invariant
                n == cells@.len(),
                i <= n,
                self.view_table() == populated(old(self).view_table(), cells@.take(i as int)),
            decreases n - i,
        {
            proof {
                assert(cells@.take(i as int + 1).drop_last() =~= cells@.take(i as int));
            }
            self.insert(cells[i], i);
            i = i + 1;
        }
        proof {
            assert(cells@.take(n as int) =~= cells@);
        }
    }

    /// The samples filed under the cell `(x, y, z)`, appended to `out`.
    fn append_cell(&self, x: i32, y: i32, z: i32, out: &mut Vec<usize>)
        ensures
            final(out)@ == old(out)@ + seq_entries(
                self.view_table(),
                hash_of(x as int, y as int, z as int),
            ),
    {
        let key = hash(x, y, z);
        match self.get(key) {
            Some(v) => {
                let m = v.len();
                let mut j: usize = 0;
                let ghost start = out@;
                while j < m
                    invariant
                        m == v@.len(),
                        j <= m,
                        out@ == start + v@.take(j as int),
                    decreases m - j,
                {
                    out.push(v[j]);
                    proof {
                        assert(v@.take(j as int + 1) =~= v@.take(j as int).push(v@[j as int]));
                    }
                    j = j + 1;
                }
                proof {
                    assert(v@.take(m as int) =~= v@);
                }
            },
            None => {
                proof {
                    assert(old(out)@ + Seq::<usize>::empty() =~= old(out)@);
                }
            },
        }
    }

    /// Every sample filed under a cell within `reach` cells of `cell` along
    /// each axis, cell after cell in lexicographic order of the offsets.
    pub fn candidates_in_range(&self, cell: GridCell, reach: i32) -> (r: Vec<usize>)
        requires
            block_fits(cell, reach as int),
        ensures
            r@ == block(self.view_table(), cell, reach as int),
    {
        let ghost t = self.view_table();
        let ghost rr = reach as int;
        let mut out: Vec<usize> = Vec::new();
        if reach < 0 {
            proof {
                assert(Seq::new(side(rr), |a: int| slab(t, cell, rr, a)) =~= Seq::<Seq<usize>>::empty());
                assert(block(t, cell, rr) =~= Seq::<usize>::empty());
            }
            return out;
        }
        let ghost outer = Seq::new(side(rr), |a: int| slab(t, cell, rr, a));
        let mut dx: i64 = -(reach as i64);
        while dx <= reach as i64
            invariant
                t == self.view_table(),
                rr == reach as int,
                reach >= 0,
                block_fits(cell, rr),
                outer == Seq::new(side(rr), |a: int| slab(t, cell, rr, a)),
                -reach <= dx <= reach + 1,
                out@ == concat(outer.take(dx + rr)),
            decreases reach + 1 - dx,
        {
            let ghost a = dx + rr;
            let ghost middle = Seq::new(side(rr), |b: int| column(t, cell, rr, a, b));
            let ghost before_slab = out@;
            let mut dy: i64 = -(reach as i64);
            while dy <= reach as i64
                invariant
                    t == self.view_table(),
                    rr == reach as int,
                    reach >= 0,
                    block_fits(cell, rr),
                    -reach <= dx <= reach,
                    a == dx + rr,
                    middle == Seq::new(side(rr), |b: int| column(t, cell, rr, a, b)),
                    -reach <= dy <= reach + 1,
                    out@ == before_slab + concat(middle.take(dy + rr)),
                decreases reach + 1 - dy,
            {
                let ghost b = dy + rr;
                let ghost inner = Seq::new(
                    side(rr),
                    |k: int| seq_entries(t, hash_of(cell.x + a - rr, cell.y + b - rr, cell.z + k - rr)),
                );
                let ghost before_column = out@;
                let mut dz: i64 = -(reach as i64);
                while dz <= reach as i64
                    invariant
                        t == self.view_table(),
                        rr == reach as int,
                        reach >= 0,
                        block_fits(cell, rr),
                        -reach <= dx <= reach,
                        -reach <= dy <= reach,
                        a == dx + rr,
                        b == dy + rr,
                        inner == Seq::new(
                            side(rr),
                            |k: int| seq_entries(t, hash_of(cell.x + a - rr, cell.y + b - rr, cell.z + k - rr)),
                        ),
                        -reach <= dz <= reach + 1,
                        out@ == before_column + concat(inner.take(dz + rr)),
                    decreases reach + 1 - dz,
                {
                    let ghost prev = out@;
                    self.append_cell((cell.x as i64 + dx) as i32, (cell.y as i64 + dy) as i32, (cell.z as i64 + dz) as i32, &mut out);
                    proof {
                        lemma_concat_take_step(inner, dz + rr);
                        assert(inner[dz + rr] == seq_entries(
                            t,
                            hash_of((cell.x + dx) as int, (cell.y + dy) as int, (cell.z + dz) as int),
                        ));
                        assert(out@ =~= before_column + concat(inner.take(dz + rr + 1)));
                    }
                    dz = dz + 1;
                }
                proof {
                    assert(inner.take(side(rr) as int) =~= inner);
                    assert(middle[b] == concat(inner));
                    lemma_concat_take_step(middle, b);
                    assert(out@ =~= before_slab + concat(middle.take(b + 1)));
                }
                dy = dy + 1;
            }
            proof {
                assert(middle.take(side(rr) as int) =~= middle);
                assert(outer[a] == concat(middle));
                lemma_concat_take_step(outer, a);
                assert(out@ =~= concat(outer.take(a + 1)));
            }
            dx = dx + 1;
        }
        proof {
            assert(outer.take(side(rr) as int) =~= outer);
        }
        out
    }
}

/// The map from signed to unsigned integers is reversible: distinct
/// integers get distinct images.
pub proof fn lemma_map_int_to_uint_injective(a: int, b: int)
    requires
        uint_of(a) == uint_of(b),
    ensures
        a == b,
{
}

/// After filing the samples of `cells`, sample `id` is filed under the hash
/// of its own cell.
pub proof fn lemma_populated_files_every_sample(cells: Seq<GridCell>, id: int)
    requires
        0 <= id < cells.len(),
    ensures
        seq_entries(populated(Map::empty(), cells), cell_hash(cells[id])).contains(id as usize),
    decreases cells.len(),
{
    let t = populated(Map::empty(), cells.drop_last());
    let key = cell_hash(cells.last());
    let n = cells.len() - 1;
    if id == n {
        let e = seq_entries(t, key).push(n as usize);
        assert(e[e.len() - 1] == id as usize);
    } else {
        lemma_populated_files_every_sample(cells.drop_last(), id);
        assert(cells.drop_last()[id] == cells[id]);
        let k = cell_hash(cells[id]);
        let old_e = seq_entries(t, k);
        let j = choose|j: int| 0 <= j < old_e.len() && old_e[j] == id as usize;
        if k == key {
            assert(old_e.push(n as usize)[j] == id as usize);
        }
    }
}

/// The indices `0..k` in increasing order.
pub open spec fn first_ids(k: int) -> Seq<usize> {
    Seq::new(k as nat, |i: int| i as usize)
}

/// After filing the samples of `cells`, the samples under `key` are exactly
/// the indices whose cell hashes to `key`, in increasing order, so that
/// each sample is filed once.
pub proof fn lemma_populated_entries_exact(cells: Seq<GridCell>, key: u64)
    requires
        cells.len() <= usize::MAX,
    ensures
        seq_entries(populated(Map::empty(), cells), key) == first_ids(cells.len() as int).filter(
            |i: usize| cell_hash(cells[i as int]) == key,
        ),
        forall|a: int, b: int|
            0 <= a < b < seq_entries(populated(Map::empty(), cells), key).len() ==> #[trigger] seq_entries(
                populated(Map::empty(), cells),
                key,
            )[a] < #[trigger] seq_entries(populated(Map::empty(), cells), key)[b],
{
    lemma_populated_entries_prefix(cells, key, cells.len() as int);
    assert(cells.take(cells.len() as int) =~= cells);
}

/// [`lemma_populated_entries_exact`] for the first `k` cells; every entry
/// is also below `k`.
proof fn lemma_populated_entries_prefix(cells: Seq<GridCell>, key: u64, k: int)
    requires
        cells.len() <= usize::MAX,
        0 <= k <= cells.len(),
    ensures
        seq_entries(populated(Map::empty(), cells.take(k)), key) == first_ids(k).filter(
            |i: usize| cell_hash(cells[i as int]) == key,
        ),
        forall|a: int, b: int|
            0 <= a < b < seq_entries(populated(Map::empty(), cells.take(k)), key).len() ==> #[trigger] seq_entries(
                populated(Map::empty(), cells.take(k)),
                key,
            )[a] < #[trigger] seq_entries(populated(Map::empty(), cells.take(k)), key)[b],
        forall|j: int|
            0 <= j < seq_entries(populated(Map::empty(), cells.take(k)), key).len() ==> #[trigger] seq_entries(
                populated(Map::empty(), cells.take(k)),
                key,
            )[j] < k,
    decreases k,
{
    reveal(Seq::filter);
    let pred = |i: usize| cell_hash(cells[i as int]) == key;
    let ids = first_ids(k);
    let e = seq_entries(populated(Map::empty(), cells.take(k)), key);
    if k == 0 {
        assert(cells.take(0) =~= Seq::<GridCell>::empty());
        assert(ids =~= Seq::<usize>::empty());
    } else {
        lemma_populated_entries_prefix(cells, key, k - 1);
        let t = cells.take(k);
        assert(t.drop_last() =~= cells.take(k - 1));
        assert(t.last() == cells[k - 1]);
        assert(ids.drop_last() =~= first_ids(k - 1));
        assert(ids.last() == (k - 1) as usize);
        let prev = seq_entries(populated(Map::empty(), cells.take(k - 1)), key);
        assert(ids.filter(pred) == if pred(ids.last()) {
            ids.drop_last().filter(pred).push(ids.last())
        } else {
            ids.drop_last().filter(pred)
        });
        if cell_hash(cells[k - 1]) == key {
            assert(e == prev.push((k - 1) as usize));
        } else {
            assert(e == prev);
        }
    }
}

/// After filing the samples of `cells`, only their indices are filed.
pub proof fn lemma_populated_files_only_samples(cells: Seq<GridCell>, key: u64, x: usize)
    requires
        seq_entries(populated(Map::empty(), cells), key).contains(x),
        cells.len() <= usize::MAX,
    ensures
        x < cells.len(),
        cell_hash(cells[x as int]) == key,
    decreases cells.len(),
{
    let t = populated(Map::empty(), cells.drop_last());
    let last_key = cell_hash(cells.last());
    let n = cells.len() - 1;
    if cells.len() == 0 {
        assert(seq_entries(Map::<u64, Seq<usize>>::empty(), key).len() == 0);
    } else if key == last_key {
        let e = seq_entries(t, key).push(n as usize);
        let j = choose|j: int| 0 <= j < e.len() && e[j] == x;
        if j < e.len() - 1 {
            assert(seq_entries(t, key)[j] == x);
            lemma_populated_files_only_samples(cells.drop_last(), key, x);
        }
    } else {
        assert(seq_entries(populated(Map::empty(), cells), key) == seq_entries(t, key));
        lemma_populated_files_only_samples(cells.drop_last(), key, x);
    }
}

/// Cell `d` lies within `r` cells of `c` along each axis.
pub open spec fn within_reach(c: GridCell, d: GridCell, r: int) -> bool {
    &&& c.x - r <= d.x <= c.x + r
    &&& c.y - r <= d.y <= c.y + r
    &&& c.z - r <= d.z <= c.z + r
}

/// Gathering candidates misses no sample: every sample whose cell lies
/// within `r` cells of `c` is among the candidates of `c`.
pub proof fn lemma_block_is_complete(cells: Seq<GridCell>, c: GridCell, r: int, id: int)
    requires
        0 <= id < cells.len(),
        within_reach(c, cells[id], r),
    ensures
        block(populated(Map::empty(), cells), c, r).contains(id as usize),
{
    let t = populated(Map::empty(), cells);
    let d = cells[id];
    let a = d.x - c.x + r;
    let b = d.y - c.y + r;
    let k = d.z - c.z + r;
    lemma_populated_files_every_sample(cells, id);
    let inner = Seq::new(side(r), |k: int| seq_entries(t, hash_of(c.x + a - r, c.y + b - r, c.z + k - r)));
    assert(inner[k] == seq_entries(t, cell_hash(d)));
    lemma_concat_contains(inner, k, id as usize);
    let middle = Seq::new(side(r), |b: int| column(t, c, r, a, b));
    assert(middle[b] == concat(inner));
    lemma_concat_contains(middle, b, id as usize);
    let outer = Seq::new(side(r), |a: int| slab(t, c, r, a));
    assert(outer[a] == concat(middle));
    lemma_concat_contains(outer, a, id as usize);
}

/// Every candidate of `c` is a sample filed under the hash of a cell within
/// `r` cells of `c` (another cell may share that hash).
pub proof fn lemma_block_is_sound(cells: Seq<GridCell>, c: GridCell, r: int, x: usize)
    requires
        block(populated(Map::empty(), cells), c, r).contains(x),
        cells.len() <= usize::MAX,
        block_fits(c, r),
    ensures
        x < cells.len(),
        exists|d: GridCell|
            within_reach(c, d, r) && cell_hash(d) == #[trigger] cell_hash(cells[x as int]),
{
    let t = populated(Map::empty(), cells);
    let outer = Seq::new(side(r), |a: int| slab(t, c, r, a));
    lemma_concat_member(outer, x);
    let a = choose|a: int| 0 <= a < outer.len() && #[trigger] outer[a].contains(x);
    let middle = Seq::new(side(r), |b: int| column(t, c, r, a, b));
    assert(outer[a] == concat(middle));
    lemma_concat_member(middle, x);
    let b = choose|b: int| 0 <= b < middle.len() && #[trigger] middle[b].contains(x);
    let inner = Seq::new(side(r), |k: int| seq_entries(t, hash_of(c.x + a - r, c.y + b - r, c.z + k - r)));
    assert(middle[b] == concat(inner));
    lemma_concat_member(inner, x);
    let k = choose|k: int| 0 <= k < inner.len() && #[trigger] inner[k].contains(x);
    let key = hash_of(c.x + a - r, c.y + b - r, c.z + k - r);
    lemma_populated_files_only_samples(cells, key, x);
    let d = GridCell { x: (c.x + a - r) as i32, y: (c.y + b - r) as i32, z: (c.z + k - r) as i32 };
    assert(within_reach(c, d, r));
    assert(cell_hash(d) == key);
}

/// Spatial hashing neighbor search structure.
///
/// Indices of samples are stored in a hash map depending
/// on their spatial position on the uniform grid. The lookup
/// of the samples in a certain cell or neighboring cells is
/// efficient and because of this it accelerates neighbor search.
/// `F` is the type of the cell size.
pub struct SpatialHashing<F> {
    fluid_cells: CellTable,
    boundary_cells: CellTable,
    cell_size: F,
}

impl<F> SpatialHashing<F> {
    pub closed spec fn fluid_table(&self) -> Map<u64, Seq<usize>> {
        self.fluid_cells.view_table()
    }

    pub closed spec fn boundary_table(&self) -> Map<u64, Seq<usize>> {
        self.boundary_cells.view_table()
    }

    pub closed spec fn size(&self) -> F {
        self.cell_size
    }

    /// Initialize spatial hashing with given cell size.
    pub fn new(cell_size: F) -> (s: Self)
        ensures
            s.size() == cell_size,
            s.fluid_table() == Map::<u64, Seq<usize>>::empty(),
            s.boundary_table() == Map::<u64, Seq<usize>>::empty(),
    {
        Self { fluid_cells: CellTable::new(), boundary_cells: CellTable::new(), cell_size }
    }

    pub fn cell_size(&self) -> (c: &F)
        ensures
            *c == self.size(),
    {
        &self.cell_size
    }

    /// Refiles fluid sample `i` under `fluid_cells[i]` and boundary sample
    /// `j` under `boundary_cells[j]`, forgetting what was filed before.
    pub fn rebuild_tables(&mut self, fluid_cells: &[GridCell], boundary_cells: &[GridCell])
        ensures
            final(self).fluid_table() == populated(Map::empty(), fluid_cells@),
            final(self).boundary_table() == populated(Map::empty(), boundary_cells@),
            final(self).size() == old(self).size(),
    {
        self.fluid_cells.clear();
        self.fluid_cells.populate(fluid_cells);
        self.boundary_cells.clear();
        self.boundary_cells.populate(boundary_cells);
    }

    /// Fluid samples filed within `reach` cells of `cell`.
    pub fn fluid_candidates(&self, cell: GridCell, reach: i32) -> (r: Vec<usize>)
        requires
            block_fits(cell, reach as int),
        ensures
            r@ == block(self.fluid_table(), cell, reach as int),
    {
        self.fluid_cells.candidates_in_range(cell, reach)
    }

    /// Boundary samples filed within `reach` cells of `cell`.
    pub fn boundary_candidates(&self, cell: GridCell, reach: i32) -> (r: Vec<usize>)
        requires
            block_fits(cell, reach as int),
        ensures
            r@ == block(self.boundary_table(), cell, reach as int),
    {
        self.boundary_cells.candidates_in_range(cell, reach)
    }
}

} // verus!

verus! {

/// Container that stores indices of samples in a hash map depending on
/// their spatial position on the uniform grid.  `F` is the type of the
/// cell size.
pub struct UniformGrid<F> {
    hash_map: CellTable,
    cell_size: F,
}

/// Number of cells searched on each side of a sample's own cell: twice the
/// cell size covers the kernel range.
pub const KERNEL_RANGE_CELLS: i32 = 2;

impl<F> UniformGrid<F> {
    pub closed spec fn table(&self) -> Map<u64, Seq<usize>> {
        self.hash_map.view_table()
    }

    pub closed spec fn size(&self) -> F {
        self.cell_size
    }

    /// Initialize
    pub fn new(cell_size: F) -> (g: Self)
        ensures
            g.size() == cell_size,
            g.table() == Map::<u64, Seq<usize>>::empty(),
    {
        Self { hash_map: CellTable::new(), cell_size }
    }

    pub fn cell_size(&self) -> (c: &F)
        ensures
            *c == self.size(),
    {
        &self.cell_size
    }

    /// Insert fluid samples into the hash map: sample `i` lies in `cells[i]`.
    pub fn populate(&mut self, cells: &[GridCell])
        ensures
            final(self).table() == populated(old(self).table(), cells@),
            final(self).size() == old(self).size(),
    {
        self.hash_map.populate(cells);
    }

    /// Insert boundary samples into the hash map: sample `i` lies in `cells[i]`.
    pub fn populate_boundary_particles(&mut self, cells: &[GridCell])
        ensures
            final(self).table() == populated(old(self).table(), cells@),
            final(self).size() == old(self).size(),
    {
        self.hash_map.populate(cells);
    }

    /// Samples filed within two cells of `cell` along each axis: the
    /// candidates for lying within twice the cell size of a position in `cell`.
    pub fn get_candidates_in_kernel_range(&self, cell: GridCell) -> (r: Vec<usize>)
        requires
            block_fits(cell, KERNEL_RANGE_CELLS as int),
        ensures
            r@ == block(self.table(), cell, KERNEL_RANGE_CELLS as int),
    {
        self.hash_map.candidates_in_range(cell, KERNEL_RANGE_CELLS)
    }

    /// Clear hash map
    pub fn clear(&mut self)
        ensures
            final(self).table() == Map::<u64, Seq<usize>>::empty(),
            final(self).size() == old(self).size(),
    {
        self.hash_map.clear();
    }
}

} // verus!
