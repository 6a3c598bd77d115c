//! Grouping the active particles of a fluid by fluid id, in ascending id
//! order: the integer part of reconstructing one surface per fluid.
use vstd::prelude::*;

use crate::sph::setup::first_index;

verus! {

/// The active particles of one fluid: its id, their positions in particle
/// order, and the mass of its first active particle.
#[derive(Debug, Clone)]
pub struct FluidGroup<P, S> {
    pub fluid_id: u32,
    pub positions: Vec<P>,
    pub mass: S,
}

/// Positions of the first `n` particles whose fluid id is `x`, in order.
pub open spec fn positions_of<P>(ids: Seq<u32>, pos: Seq<P>, x: u32, n: int) -> Seq<P>
    decreases n,
{
    if n <= 0 {
        Seq::empty()
    } else {
        positions_of(ids, pos, x, n - 1) + if ids[n - 1] == x {
            seq![pos[n - 1]]
        } else {
            Seq::empty()
        }
    }
}

/// `groups` holds one group per fluid id among the first `n` particles, in
/// ascending id order, each with the positions of its particles and the
/// mass of its first one.
pub open spec fn grouped<P, S>(groups: Seq<FluidGroup<P, S>>, ids: Seq<u32>, pos: Seq<P>, mass: Seq<S>, n: int) -> bool {
    &&& forall|a: int, b: int|
        0 <= a < b < groups.len() ==> #[trigger] groups[a].fluid_id < #[trigger] groups[b].fluid_id
    &&& forall|g: int|
        0 <= g < groups.len() ==> {
            let x = #[trigger] groups[g].fluid_id;
            &&& groups[g].positions@ == positions_of(ids, pos, x, n)
            &&& positions_of(ids, pos, x, n).len() > 0
            &&& first_index(ids.take(n), x) is Some
            &&& groups[g].mass == mass[first_index(ids.take(n), x)->0]
        }
    &&& forall|i: int| 0 <= i < n ==> #[trigger] has_group(groups, ids[i])
}

/// Some group of `groups` has fluid id `x`.
pub open spec fn has_group<P, S>(groups: Seq<FluidGroup<P, S>>, x: u32) -> bool {
    exists|g: int| 0 <= g < groups.len() && #[trigger] groups[g].fluid_id == x
}

/// No particle among the first `n` of fluid `x`: no positions, no first one.
proof fn lemma_positions_absent<P>(ids: Seq<u32>, pos: Seq<P>, x: u32, n: int)
    requires
        0 <= n <= ids.len(),
        forall|i: int| 0 <= i < n ==> ids[i] != x,
    ensures
        positions_of(ids, pos, x, n).len() == 0,
        first_index(ids.take(n), x) is None,
    decreases n,
{
    if n > 0 {
        lemma_positions_absent(ids, pos, x, n - 1);
        assert(ids.take(n).drop_last() =~= ids.take(n - 1));
    }
}

/// Fluid ids are totally ordered, as a `BTreeMap` keyed by them needs.
proof fn lemma_fluid_ids_ordered()
    ensures
        vstd::laws_cmp::obeys_cmp::<u32>(),
        vstd::std_specs::btree::key_obeys_cmp_spec::<u32>(),
{
    broadcast use vstd::laws_cmp::group_laws_cmp, vstd::std_specs::btree::group_btree_axioms;
}

/// Fluid ids that a `BTreeMap` hands out in increasing order ascend.
proof fn lemma_fluid_ids_ascend(s: Seq<&u32>)
    requires
        vstd::std_specs::btree::increasing_seq(s),
    ensures
        forall|a: int, b: int| 0 <= a < b < s.len() ==> *#[trigger] s[a] < *#[trigger] s[b],
{
    broadcast use vstd::laws_cmp::group_laws_cmp, vstd::std_specs::btree::group_btree_axioms;
    assert forall|a: int, b: int| 0 <= a < b < s.len() implies *#[trigger] s[a] < *#[trigger] s[b] by {
        assert(vstd::std_specs::cmp::OrdSpec::cmp_spec(&s[a], &s[b]) is Less);
    }
}

/// `by_id` maps each fluid id among the first `n` particles to the
/// positions of its particles and the mass of its first one.
pub open spec fn collected<P, S>(by_id: Map<u32, (Vec<P>, S)>, ids: Seq<u32>, pos: Seq<P>, mass: Seq<S>, n: int) -> bool {
    &&& forall|x: u32| #[trigger] by_id.contains_key(x) <==> exists|i: int| 0 <= i < n && ids[i] == x
    &&& forall|x: u32|
        #[trigger] by_id.contains_key(x) ==> {
            &&& by_id[x].0@ == positions_of(ids, pos, x, n)
            &&& positions_of(ids, pos, x, n).len() > 0
            &&& first_index(ids.take(n), x) is Some
            &&& by_id[x].1 == mass[first_index(ids.take(n), x)->0]
        }
}

/// Groups the first `n` particles by fluid id.
pub fn group_by_fluid_id<P: Copy, S: Copy>(fluid_id: &Vec<u32>, position: &Vec<P>, mass: &Vec<S>, n: usize) -> (groups: Vec<FluidGroup<P, S>>)
    requires
        n <= fluid_id@.len(),
        n <= position@.len(),
        n <= mass@.len(),
    ensures
        grouped(groups@, fluid_id@, position@, mass@, n as int),
{
    broadcast use vstd::std_specs::btree::group_btree_axioms;

    let ghost ids = fluid_id@;
    let ghost pos = position@;
    proof {
        lemma_fluid_ids_ordered();
    }
    let mut by_id: std::collections::BTreeMap<u32, (Vec<P>, S)> = std::collections::BTreeMap::new();
    let mut k: usize = 0;
    while k < n
        invariant
            ids == fluid_id@,
            pos == position@,
            n <= ids.len(),
            n <= pos.len(),
            n <= mass@.len(),
            k <= n,
            collected(by_id@, ids, pos, mass@, k as int),
        decreases n - k,
    {
        let id = fluid_id[k];
        let p = position[k];
        let ghost before = by_id@;
        proof {
            lemma_fluid_ids_ordered();
            assert(ids.take(k as int + 1).drop_last() =~= ids.take(k as int));
        }
        let entry = by_id.remove(&id);
        let (mut positions, first_mass) = match entry {
            Some(e) => e,
            None => {
                proof {
                    assert forall|i: int| 0 <= i < k implies ids[i] != id by {
                        if ids[i] == id {
                            assert(before.contains_key(id));
                        }
                    }
                    lemma_positions_absent(ids, pos, id, k as int);
                }
                (Vec::new(), mass[k])
            },
        };
        positions.push(p);
        by_id.insert(id, (positions, first_mass));
        proof {
            assert(by_id@ == before.insert(id, (positions, first_mass)));
            assert forall|x: u32| #[trigger] by_id@.contains_key(x) <==> exists|i: int| 0 <= i < k + 1 && ids[i] == x by {
                if x != id && by_id@.contains_key(x) {
                    assert(before.contains_key(x));
                }
                if exists|i: int| 0 <= i < k + 1 && ids[i] == x {
                    let i = choose|i: int| 0 <= i < k + 1 && ids[i] == x;
                    if i < k {
                        assert(before.contains_key(x));
                    }
                }
            }
            assert forall|x: u32| #[trigger] by_id@.contains_key(x) implies {
                &&& by_id@[x].0@ == positions_of(ids, pos, x, k as int + 1)
                &&& positions_of(ids, pos, x, k as int + 1).len() > 0
                &&& first_index(ids.take(k as int + 1), x) is Some
                &&& by_id@[x].1 == mass@[first_index(ids.take(k as int + 1), x)->0]
            } by {
                if x != id {
                    assert(before.contains_key(x));
                } else if before.contains_key(id) {
                } else {
                    assert(positions_of(ids, pos, id, k as int + 1) =~= seq![p]);
                    assert(first_index(ids.take(k as int + 1), id) == Some(k as int));
                }
            }
        }
        k = k + 1;
    }
    let mut keys: Vec<u32> = Vec::new();
    for key in it: by_id.keys()
        invariant
            keys@ == it.seq().unref().take(it.index() as int),
    {
        keys.push(*key);
        proof {
            assert(keys@ =~= it.seq().unref().take(it.index() as int + 1));
        }
    }
    proof {
        lemma_fluid_ids_ordered();
        let handed_out = vstd::std_specs::iter::IteratorSpec::remaining(
            &vstd::std_specs::btree::spec_keys_iter(&by_id),
        );
        assert(keys@ =~= handed_out.unref());
        lemma_fluid_ids_ascend(handed_out);
    }
    let ghost all = by_id@;
    let mut groups: Vec<FluidGroup<P, S>> = Vec::new();
    let m = keys.len();
    let mut g: usize = 0;
    while g < m
        invariant
            m == keys@.len(),
            g <= m,
            collected(all, ids, pos, mass@, n as int),
            keys@.to_set() == all.dom(),
            forall|a: int, b: int| 0 <= a < b < m ==> #[trigger] keys@[a] < #[trigger] keys@[b],
            by_id@ == all.remove_keys(keys@.take(g as int).to_set()),
            groups@.len() == g,
            forall|j: int|
                0 <= j < g ==> {
                    &&& #[trigger] groups@[j].fluid_id == keys@[j]
                    &&& groups@[j].positions == all[keys@[j]].0
                    &&& groups@[j].mass == all[keys@[j]].1
                },
        decreases m - g,
    {
        let key = keys[g];
        proof {
            lemma_fluid_ids_ordered();
            assert(keys@.to_set().contains(key));
            assert(!keys@.take(g as int).to_set().contains(key)) by {
                if keys@.take(g as int).to_set().contains(key) {
                    let j = choose|j: int| 0 <= j < g && keys@.take(g as int)[j] == key;
                    assert(keys@[j] < keys@[g as int]);
                }
            }
        }
        let (positions, first_mass) = by_id.remove(&key).unwrap();
        groups.push(FluidGroup { fluid_id: key, positions, mass: first_mass });
        proof {
            assert(keys@.take(g as int + 1) =~= keys@.take(g as int).push(key));
            keys@.take(g as int).lemma_push_to_set_commute(key);
            assert(by_id@ =~= all.remove_keys(keys@.take(g as int + 1).to_set()));
        }
        g = g + 1;
    }
    proof {
        assert forall|j: int| 0 <= j < groups@.len() implies {
            let x = #[trigger] groups@[j].fluid_id;
            &&& groups@[j].positions@ == positions_of(ids, pos, x, n as int)
            &&& positions_of(ids, pos, x, n as int).len() > 0
            &&& first_index(ids.take(n as int), x) is Some
            &&& groups@[j].mass == mass@[first_index(ids.take(n as int), x)->0]
        } by {
            assert(keys@.to_set().contains(keys@[j]));
            assert(all.contains_key(keys@[j]));
        }
        assert forall|i: int| 0 <= i < n implies #[trigger] has_group(groups@, ids[i]) by {
            assert(all.contains_key(ids[i]));
            assert(keys@.to_set().contains(ids[i]));
            let j = choose|j: int| 0 <= j < keys@.len() && keys@[j] == ids[i];
            assert(groups@[j].fluid_id == ids[i]);
        }
    }
    groups
}

} // verus!

verus! {

/// The surfaces of `surfaces` (fluid id and mesh, one per fluid) whose mesh
/// is not empty (`empty[i]` tells whether mesh `i` has no triangles), in
/// order.
pub open spec fn kept<M>(surfaces: Seq<(u32, M)>, empty: Seq<bool>) -> Seq<(u32, M)>
    decreases surfaces.len(),
{
    if surfaces.len() == 0 {
        Seq::empty()
    } else {
        kept(surfaces.drop_last(), empty) + if !empty[surfaces.len() - 1] {
            seq![surfaces.last()]
        } else {
            Seq::empty()
        }
    }
}

/// Fluid ids ascend strictly along `s`.
pub open spec fn ids_ascending<M>(s: Seq<(u32, M)>) -> bool {
    forall|a: int, b: int| 0 <= a < b < s.len() ==> #[trigger] s[a].0 < #[trigger] s[b].0
}

/// Every surface whose mesh is not empty is kept, and the kept surfaces are
/// exactly those, in input order: the surfaces paired with their flags,
/// filtered by a non-empty flag.
pub proof fn lemma_kept_are_all_nonempty<M>(surfaces: Seq<(u32, M)>, empty: Seq<bool>)
    requires
        empty.len() == surfaces.len(),
    ensures
        forall|i: int|
            0 <= i < surfaces.len() && !empty[i] ==> kept(surfaces, empty).contains(#[trigger] surfaces[i]),
        kept(surfaces, empty) == Seq::new(surfaces.len(), |i: int| (surfaces[i], empty[i])).filter(
            |p: ((u32, M), bool)| !p.1,
        ).map_values(|p: ((u32, M), bool)| p.0),
{
    lemma_kept_prefix(surfaces, empty, surfaces.len() as int);
    assert(surfaces.take(surfaces.len() as int) =~= surfaces);
}

/// [`lemma_kept_are_all_nonempty`] for the first `k` surfaces.
proof fn lemma_kept_prefix<M>(surfaces: Seq<(u32, M)>, empty: Seq<bool>, k: int)
    requires
        empty.len() == surfaces.len(),
        0 <= k <= surfaces.len(),
    ensures
        forall|i: int|
            0 <= i < k && !empty[i] ==> kept(surfaces.take(k), empty).contains(#[trigger] surfaces[i]),
        kept(surfaces.take(k), empty) == Seq::new(k as nat, |i: int| (surfaces[i], empty[i])).filter(
            |p: ((u32, M), bool)| !p.1,
        ).map_values(|p: ((u32, M), bool)| p.0),
    decreases k,
{
    let pred = |p: ((u32, M), bool)| !p.1;
    let fst = |p: ((u32, M), bool)| p.0;
    let flagged = Seq::new(k as nat, |i: int| (surfaces[i], empty[i]));
    if k > 0 {
        lemma_kept_prefix(surfaces, empty, k - 1);
        let t = surfaces.take(k);
        assert(t.drop_last() =~= surfaces.take(k - 1));
        let prev = Seq::new((k - 1) as nat, |i: int| (surfaces[i], empty[i]));
        assert(flagged.drop_last() =~= prev);
        let f = prev.filter(pred);
        assert(flagged.last() == (surfaces[k - 1], empty[k - 1]));
        reveal(Seq::filter);
        assert(flagged.filter(pred) == if pred(flagged.last()) {
            flagged.drop_last().filter(pred).push(flagged.last())
        } else {
            flagged.drop_last().filter(pred)
        });
        if !empty[k - 1] {
            assert(flagged.filter(pred) == f.push(flagged.last()));
            assert(f.push(flagged.last()).map_values(fst) =~= f.map_values(fst).push(surfaces[k - 1]));
            assert(kept(t, empty) == kept(surfaces.take(k - 1), empty) + seq![surfaces[k - 1]]);
            assert(kept(t, empty)[kept(t, empty).len() - 1] == surfaces[k - 1]);
        } else {
            assert(flagged.filter(pred) == f);
            assert(kept(t, empty) =~= kept(surfaces.take(k - 1), empty));
        }
        assert forall|i: int| 0 <= i < k && !empty[i] implies kept(t, empty).contains(#[trigger] surfaces[i]) by {
            if i < k - 1 {
                let prev_kept = kept(surfaces.take(k - 1), empty);
                assert(prev_kept.contains(surfaces[i]));
                let j = choose|j: int| 0 <= j < prev_kept.len() && prev_kept[j] == surfaces[i];
                assert(kept(t, empty)[j] == surfaces[i]);
            }
        }
    } else {
        reveal(Seq::filter);
        assert(flagged =~= Seq::<((u32, M), bool)>::empty());
        assert(flagged.filter(pred).map_values(fst) =~= Seq::<(u32, M)>::empty());
    }
}

/// Every kept surface is a surface of the input with a nonempty mesh, and
/// kept surfaces keep ascending fluid ids, none above the last input id.
pub proof fn lemma_kept_surfaces<M>(surfaces: Seq<(u32, M)>, empty: Seq<bool>)
    requires
        empty.len() == surfaces.len(),
    ensures
        forall|j: int|
            0 <= j < kept(surfaces, empty).len() ==> exists|i: int|
                0 <= i < surfaces.len() && surfaces[i] == #[trigger] kept(surfaces, empty)[j] && !empty[i],
        ids_ascending(surfaces) ==> ids_ascending(kept(surfaces, empty)),
        ids_ascending(surfaces) && surfaces.len() > 0 ==> forall|j: int|
            0 <= j < kept(surfaces, empty).len() ==> #[trigger] kept(surfaces, empty)[j].0
                <= surfaces.last().0,
    decreases surfaces.len(),
{
    if surfaces.len() > 0 {
        let s = surfaces.drop_last();
        let e = empty.drop_last();
        assert(kept(s, empty) == kept(s, e)) by {
            lemma_kept_prefix_flags(s, empty, e);
        }
        lemma_kept_surfaces(s, e);
        let k = kept(surfaces, empty);
        let ks = kept(s, e);
        assert forall|j: int| 0 <= j < k.len() implies exists|i: int|
            0 <= i < surfaces.len() && surfaces[i] == #[trigger] k[j] && !empty[i] by {
            if j < ks.len() {
                let i = choose|i: int| 0 <= i < s.len() && s[i] == #[trigger] ks[j] && !e[i];
                assert(surfaces[i] == k[j]);
            } else {
                assert(k[j] == surfaces[surfaces.len() - 1]);
            }
        }
        if ids_ascending(surfaces) {
            assert(ids_ascending(s));
            if s.len() > 0 {
                assert(s.last().0 < surfaces.last().0);
            }
            assert forall|j: int| 0 <= j < ks.len() implies #[trigger] ks[j].0 < surfaces.last().0 by {
                let i = choose|i: int| 0 <= i < s.len() && s[i] == #[trigger] ks[j] && !e[i];
                assert(surfaces[i].0 < surfaces[surfaces.len() - 1].0);
            }
            assert forall|a: int, b: int| 0 <= a < b < k.len() implies #[trigger] k[a].0 < #[trigger] k[b].0 by {
                if b < ks.len() {
                    assert(k[a] == ks[a]);
                    assert(k[b] == ks[b]);
                } else {
                    assert(k[a] == ks[a]);
                }
            }
            assert forall|j: int| 0 <= j < k.len() implies #[trigger] k[j].0 <= surfaces.last().0 by {
                if j < ks.len() {
                    assert(k[j] == ks[j]);
                }
            }
        }
    }
}

/// Which surfaces are kept depends only on the flags of those surfaces.
proof fn lemma_kept_prefix_flags<M>(s: Seq<(u32, M)>, a: Seq<bool>, b: Seq<bool>)
    requires
        s.len() <= a.len(),
        s.len() <= b.len(),
        forall|i: int| 0 <= i < s.len() ==> a[i] == b[i],
    ensures
        kept(s, a) == kept(s, b),
    decreases s.len(),
{
    if s.len() > 0 {
        lemma_kept_prefix_flags(s.drop_last(), a, b);
    }
}

/// Leaves out the surfaces whose mesh is empty, so that a renderer gets no
/// empty index buffers.
pub fn keep_nonempty_surfaces<M>(surfaces: Vec<(u32, M)>, empty: &Vec<bool>) -> (r: Vec<(u32, M)>)
    requires
        surfaces@.len() == empty@.len(),
    ensures
        r@ == kept(surfaces@, empty@),
        forall|i: int| 0 <= i < surfaces@.len() && !empty@[i] ==> r@.contains(#[trigger] surfaces@[i]),
{
    proof {
        lemma_kept_are_all_nonempty(surfaces@, empty@);
    }
    let ghost all = surfaces@;
    let n = empty.len();
    let mut rest = surfaces;
    let mut out: Vec<(u32, M)> = Vec::new();
    let mut k: usize = 0;
    while k < n
        invariant
            n == empty@.len(),
            n == all.len(),
            k <= n,
            rest@ == all.skip(k as int),
            out@ == kept(all.take(k as int), empty@),
        decreases n - k,
    {
        proof {
            assert(all.take(k as int + 1).drop_last() =~= all.take(k as int));
            assert(rest@[0] == all[k as int]);
        }
        let surface = rest.remove(0);
        if !empty[k] {
            out.push(surface);
        }
        proof {
            assert(rest@ =~= all.skip(k as int + 1));
            assert(all.take(k as int + 1).last() == all[k as int]);
        }
        k = k + 1;
    }
    proof {
        assert(all.take(n as int) =~= all);
    }
    out
}

} // verus!
