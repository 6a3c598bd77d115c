//! A collection of fluid samples for an SPH simulation: parallel
//! per-particle columns, of which the first `num_active` entries are the
//! active particles.
//!
//! The container is generic over the position type `P`, the vector type `V`
//! and the scalar type `S`; it only moves particle data around.
use vstd::prelude::*;

use crate::columns::{
    filled, filled_lists, lemma_views_len, swap_entries, swap_in_each, swapped, truncate_each, views,
};

verus! {

pub trait Len {
    /// Number of samples that count.
    spec fn counted(&self) -> int;

    fn len(&self) -> (n: usize)
        ensures
            n == self.counted(),
    ;

    fn is_empty(&self) -> (b: bool)
        ensures
            b == (self.counted() == 0),
    {
        self.len() == 0
    }
}

/// Fluid, i.e. a collection of samples, which are identified by an ID (usize)
#[derive(Debug, Clone)]
pub struct Fluid<P, V, S> {
    num_active: usize,
    pub fluid_id: Vec<u32>,
    pub position: Vec<P>,
    pub velocity: Vec<V>,
    pub acceleration: Vec<V>,
    pub mass: Vec<S>,
    /// volume (necessary for sph fluid)
    pub volume: Vec<S>,
    pub pressure: Vec<S>,
    /// Scratch position slots owned by the active integration scheme.
    pub integrator_position_slots: Vec<Vec<P>>,
    /// Scratch velocity slots owned by the active integration scheme.
    pub integrator_velocity_slots: Vec<Vec<V>>,
    /// Scratch position slots owned by the active pressure solver.
    pub solver_position_slots: Vec<Vec<P>>,
    /// Scratch velocity slots owned by the active pressure solver.
    pub solver_velocity_slots: Vec<Vec<V>>,
}

/// The per-particle columns of a fluid, as sequences.
#[verifier::ext_equal]
pub struct FluidColumns<P, V, S> {
    pub fluid_id: Seq<u32>,
    pub position: Seq<P>,
    pub velocity: Seq<V>,
    pub acceleration: Seq<V>,
    pub mass: Seq<S>,
    pub volume: Seq<S>,
    pub pressure: Seq<S>,
    pub integrator_position_slots: Seq<Seq<P>>,
    pub integrator_velocity_slots: Seq<Seq<V>>,
    pub solver_position_slots: Seq<Seq<P>>,
    pub solver_velocity_slots: Seq<Seq<V>>,
}

impl<P, V, S> FluidColumns<P, V, S> {
    /// Every column holds `n` entries.
    pub open spec fn all_len(self, n: int) -> bool {
        &&& self.fluid_id.len() == n
        &&& self.position.len() == n
        &&& self.velocity.len() == n
        &&& self.acceleration.len() == n
        &&& self.mass.len() == n
        &&& self.volume.len() == n
        &&& self.pressure.len() == n
        &&& crate::columns::all_len(self.integrator_position_slots, n)
        &&& crate::columns::all_len(self.integrator_velocity_slots, n)
        &&& crate::columns::all_len(self.solver_position_slots, n)
        &&& crate::columns::all_len(self.solver_velocity_slots, n)
    }

    /// Every column with the entries at `a` and `b` exchanged.
    pub open spec fn swap(self, a: int, b: int) -> Self {
        FluidColumns {
            fluid_id: swapped(self.fluid_id, a, b),
            position: swapped(self.position, a, b),
            velocity: swapped(self.velocity, a, b),
            acceleration: swapped(self.acceleration, a, b),
            mass: swapped(self.mass, a, b),
            volume: swapped(self.volume, a, b),
            pressure: swapped(self.pressure, a, b),
            integrator_position_slots: self.integrator_position_slots.map_values(
                |s: Seq<P>| swapped(s, a, b),
            ),
            integrator_velocity_slots: self.integrator_velocity_slots.map_values(
                |s: Seq<V>| swapped(s, a, b),
            ),
            solver_position_slots: self.solver_position_slots.map_values(
                |s: Seq<P>| swapped(s, a, b),
            ),
            solver_velocity_slots: self.solver_velocity_slots.map_values(
                |s: Seq<V>| swapped(s, a, b),
            ),
        }
    }

    /// Every column cut down to its first `n` entries.
    pub open spec fn take(self, n: int) -> Self {
        FluidColumns {
            fluid_id: self.fluid_id.take(n),
            position: self.position.take(n),
            velocity: self.velocity.take(n),
            acceleration: self.acceleration.take(n),
            mass: self.mass.take(n),
            volume: self.volume.take(n),
            pressure: self.pressure.take(n),
            integrator_position_slots: self.integrator_position_slots.map_values(
                |s: Seq<P>| s.take(n),
            ),
            integrator_velocity_slots: self.integrator_velocity_slots.map_values(
                |s: Seq<V>| s.take(n),
            ),
            solver_position_slots: self.solver_position_slots.map_values(|s: Seq<P>| s.take(n)),
            solver_velocity_slots: self.solver_velocity_slots.map_values(|s: Seq<V>| s.take(n)),
        }
    }
}

impl<P, V, S> Fluid<P, V, S> {
    pub closed spec fn active(&self) -> int {
        self.num_active as int
    }

    /// All columns of the fluid.
    pub closed spec fn columns(&self) -> FluidColumns<P, V, S> {
        FluidColumns {
            fluid_id: self.fluid_id@,
            position: self.position@,
            velocity: self.velocity@,
            acceleration: self.acceleration@,
            mass: self.mass@,
            volume: self.volume@,
            pressure: self.pressure@,
            integrator_position_slots: views(self.integrator_position_slots@),
            integrator_velocity_slots: views(self.integrator_velocity_slots@),
            solver_position_slots: views(self.solver_position_slots@),
            solver_velocity_slots: views(self.solver_velocity_slots@),
        }
    }

    /// Number of particles, active or not.
    pub open spec fn total(&self) -> int {
        self.columns().position.len() as int
    }

    /// All columns have the same length and the active particles lie within it.
    pub open spec fn wf(&self) -> bool {
        &&& self.columns().all_len(self.total())
        &&& self.active() <= self.total()
    }

    /// The scratch slot pools are empty.
    pub open spec fn no_slots(&self) -> bool {
        &&& self.columns().integrator_position_slots.len() == 0
        &&& self.columns().integrator_velocity_slots.len() == 0
        &&& self.columns().solver_position_slots.len() == 0
        &&& self.columns().solver_velocity_slots.len() == 0
    }

    /// An empty fluid.
    pub fn new() -> (f: Self)
        ensures
            f.wf(),
            f.no_slots(),
            f.total() == 0,
            f.active() == 0,
    {
        Self {
            num_active: 0,
            fluid_id: Vec::new(),
            position: Vec::new(),
            velocity: Vec::new(),
            acceleration: Vec::new(),
            mass: Vec::new(),
            volume: Vec::new(),
            pressure: Vec::new(),
            integrator_position_slots: Vec::new(),
            integrator_velocity_slots: Vec::new(),
            solver_position_slots: Vec::new(),
            solver_velocity_slots: Vec::new(),
        }
    }

    /// A fluid of the given columns, all of whose particles are active and
    /// whose slot pools are empty.
    pub fn from_fields(
        fluid_id: Vec<u32>,
        position: Vec<P>,
        velocity: Vec<V>,
        acceleration: Vec<V>,
        mass: Vec<S>,
        volume: Vec<S>,
        pressure: Vec<S>,
    ) -> (f: Self)
        requires
            fluid_id@.len() == position@.len(),
            velocity@.len() == position@.len(),
            acceleration@.len() == position@.len(),
            mass@.len() == position@.len(),
            volume@.len() == position@.len(),
            pressure@.len() == position@.len(),
        ensures
            f.wf(),
            f.no_slots(),
            f.active() == position@.len(),
            f.columns().fluid_id == fluid_id@,
            f.columns().position == position@,
            f.columns().velocity == velocity@,
            f.columns().acceleration == acceleration@,
            f.columns().mass == mass@,
            f.columns().volume == volume@,
            f.columns().pressure == pressure@,
    {
        let len = position.len();
        Self {
            num_active: len,
            fluid_id,
            position,
            velocity,
            acceleration,
            mass,
            volume,
            pressure,
            integrator_position_slots: Vec::new(),
            integrator_velocity_slots: Vec::new(),
            solver_position_slots: Vec::new(),
            solver_velocity_slots: Vec::new(),
        }
    }

    /// Total numer of fluid samples contained in [Fluid].
    pub fn total_len(&self) -> (n: usize)
        ensures
            n == self.total(),
    {
        self.position.len()
    }

    /// Appends the particle columns of `other` to a fluid without inactive
    /// particles, counting `other`'s active particles as active too.  The
    /// fluid's slot pools are empty (appending happens before the pools are
    /// sized); `other`'s slot pools are dropped.
    pub fn extend(&mut self, other: Self)
        requires
            old(self).wf(),
            old(self).active() == old(self).total(),
            old(self).no_slots(),
            old(self).total() + other.active() <= usize::MAX,
        ensures
            other.wf() ==> final(self).wf(),
            final(self).no_slots(),
            final(self).active() == old(self).active() + other.active(),
            final(self).columns().fluid_id == old(self).columns().fluid_id + other.columns().fluid_id,
            final(self).columns().position == old(self).columns().position + other.columns().position,
            final(self).columns().velocity == old(self).columns().velocity + other.columns().velocity,
            final(self).columns().acceleration == old(self).columns().acceleration
                + other.columns().acceleration,
            final(self).columns().mass == old(self).columns().mass + other.columns().mass,
            final(self).columns().volume == old(self).columns().volume + other.columns().volume,
            final(self).columns().pressure == old(self).columns().pressure + other.columns().pressure,
    {
        let mut other = other;
        self.num_active = self.num_active + other.num_active;
        self.fluid_id.append(&mut other.fluid_id);
        self.position.append(&mut other.position);
        self.velocity.append(&mut other.velocity);
        self.acceleration.append(&mut other.acceleration);
        self.mass.append(&mut other.mass);
        self.volume.append(&mut other.volume);
        self.pressure.append(&mut other.pressure);
    }

    /// Exchanges particles `a` and `b` in every column.
    pub fn swap(&mut self, a: usize, b: usize)
        requires
            old(self).wf(),
            a < old(self).total(),
            b < old(self).total(),
        ensures
            final(self).wf(),
            final(self).active() == old(self).active(),
            final(self).columns() == old(self).columns().swap(a as int, b as int),
    {
        if a == b {
            proof {
                let c = self.columns();
                assert(c.swap(a as int, b as int) =~~= c);
            }
            return;
        }
        proof {
            lemma_views_len(self.integrator_position_slots@, self.total());
            lemma_views_len(self.integrator_velocity_slots@, self.total());
            lemma_views_len(self.solver_position_slots@, self.total());
            lemma_views_len(self.solver_velocity_slots@, self.total());
        }
        swap_entries(&mut self.fluid_id, a, b);
        swap_entries(&mut self.position, a, b);
        swap_entries(&mut self.velocity, a, b);
        swap_entries(&mut self.acceleration, a, b);
        swap_entries(&mut self.mass, a, b);
        swap_entries(&mut self.volume, a, b);
        swap_entries(&mut self.pressure, a, b);
        swap_in_each(&mut self.integrator_position_slots, a, b);
        swap_in_each(&mut self.integrator_velocity_slots, a, b);
        swap_in_each(&mut self.solver_position_slots, a, b);
        swap_in_each(&mut self.solver_velocity_slots, a, b);
        proof {
            assert(self.columns() =~~= old(self).columns().swap(a as int, b as int));
        }
    }

    /// Deactivates particle `id`: it changes places with the last active
    /// particle, which then stops counting as active.
    pub fn disable(&mut self, id: usize)
        requires
            old(self).wf(),
            id < old(self).active(),
        ensures
            final(self).wf(),
            final(self).active() == old(self).active() - 1,
            final(self).columns() == old(self).columns().swap(id as int, old(self).active() - 1),
    {
        self.num_active = self.num_active - 1;
        let last = self.num_active;
        self.swap(id, last);
    }

    /// Drops every inactive particle.
    pub fn drop_inactive(&mut self)
        requires
            old(self).wf(),
        ensures
            final(self).wf(),
            final(self).active() == old(self).active(),
            final(self).total() == old(self).active(),
            final(self).columns() == old(self).columns().take(old(self).active()),
    {
        let n = self.num_active;
        self.fluid_id.truncate(n);
        self.position.truncate(n);
        self.velocity.truncate(n);
        self.acceleration.truncate(n);
        self.mass.truncate(n);
        self.volume.truncate(n);
        self.pressure.truncate(n);
        truncate_each(&mut self.integrator_position_slots, n);
        truncate_each(&mut self.integrator_velocity_slots, n);
        truncate_each(&mut self.solver_position_slots, n);
        truncate_each(&mut self.solver_velocity_slots, n);
        proof {
            assert(self.columns() =~~= old(self).columns().take(n as int));
        }
    }
}

impl<P, V, S> Fluid<P, V, S> {
    /// The integrator's position and velocity slots hand over their
    /// contents: the current position and velocity columns become slot 0
    /// of the respective pool, and slot 0 becomes the current column.
    pub fn take_integrator_prediction(&mut self)
        requires
            old(self).wf(),
            old(self).columns().integrator_position_slots.len() == 1,
            old(self).columns().integrator_velocity_slots.len() == 1,
        ensures
            final(self).wf(),
            final(self).active() == old(self).active(),
            final(self).columns() == (FluidColumns {
                position: old(self).columns().integrator_position_slots[0],
                velocity: old(self).columns().integrator_velocity_slots[0],
                integrator_position_slots: seq![old(self).columns().position],
                integrator_velocity_slots: seq![old(self).columns().velocity],
                ..old(self).columns()
            }),
    {
        proof {
            lemma_views_len(self.integrator_position_slots@, self.total());
            lemma_views_len(self.integrator_velocity_slots@, self.total());
        }
        let mut p = self.integrator_position_slots.remove(0);
        std::mem::swap(&mut self.position, &mut p);
        self.integrator_position_slots.insert(0, p);
        let mut v = self.integrator_velocity_slots.remove(0);
        std::mem::swap(&mut self.velocity, &mut v);
        self.integrator_velocity_slots.insert(0, v);
        proof {
            assert(views(self.integrator_position_slots@) =~~= seq![old(self).columns().position]);
            assert(views(self.integrator_velocity_slots@) =~~= seq![old(self).columns().velocity]);
            assert(self.columns() =~~= (FluidColumns {
                position: old(self).columns().integrator_position_slots[0],
                velocity: old(self).columns().integrator_velocity_slots[0],
                integrator_position_slots: seq![old(self).columns().position],
                integrator_velocity_slots: seq![old(self).columns().velocity],
                ..old(self).columns()
            }));
        }
    }
}

impl<P, V: Copy, S: Copy> Fluid<P, V, S> {
    /// Appends samples of fluid `fluid_id` at the given positions, each of
    /// mass `mass` and at rest: `zero` velocity and acceleration, `nil`
    /// volume and pressure.  All of them are active.
    pub fn add_samples(&mut self, position: Vec<P>, fluid_id: u32, mass: S, zero: V, nil: S)
        requires
            old(self).wf(),
            old(self).no_slots(),
            old(self).active() == old(self).total(),
            old(self).total() + position@.len() <= usize::MAX,
        ensures
            final(self).wf(),
            final(self).no_slots(),
            final(self).active() == old(self).active() + position@.len(),
            final(self).columns().fluid_id == old(self).columns().fluid_id + Seq::new(
                position@.len(),
                |i: int| fluid_id,
            ),
            final(self).columns().position == old(self).columns().position + position@,
            final(self).columns().velocity == old(self).columns().velocity + Seq::new(
                position@.len(),
                |i: int| zero,
            ),
            final(self).columns().acceleration == old(self).columns().acceleration + Seq::new(
                position@.len(),
                |i: int| zero,
            ),
            final(self).columns().mass == old(self).columns().mass + Seq::new(
                position@.len(),
                |i: int| mass,
            ),
            final(self).columns().volume == old(self).columns().volume + Seq::new(
                position@.len(),
                |i: int| nil,
            ),
            final(self).columns().pressure == old(self).columns().pressure + Seq::new(
                position@.len(),
                |i: int| nil,
            ),
    {
        let len = position.len();
        let samples = Fluid::from_fields(
            filled(len, fluid_id),
            position,
            filled(len, zero),
            filled(len, zero),
            filled(len, mass),
            filled(len, nil),
            filled(len, nil),
        );
        self.extend(samples);
    }
}

impl<P: Copy, V: Copy, S> Fluid<P, V, S> {
    /// (Re-)sizes the scratch slot pools: each pool gets the given number
    /// of slots, each slot one entry per particle, filled with `origin`
    /// (positions) or `zero` (velocities).
    pub fn resize_slots(
        &mut self,
        integrator_position_slots: usize,
        integrator_velocity_slots: usize,
        pressure_solver_position_slots: usize,
        pressure_solver_velocity_slots: usize,
        origin: P,
        zero: V,
    )
        requires
            old(self).wf(),
        ensures
            final(self).wf(),
            final(self).active() == old(self).active(),
            final(self).columns().fluid_id == old(self).columns().fluid_id,
            final(self).columns().position == old(self).columns().position,
            final(self).columns().velocity == old(self).columns().velocity,
            final(self).columns().acceleration == old(self).columns().acceleration,
            final(self).columns().mass == old(self).columns().mass,
            final(self).columns().volume == old(self).columns().volume,
            final(self).columns().pressure == old(self).columns().pressure,
            final(self).columns().integrator_position_slots == Seq::new(
                integrator_position_slots as nat,
                |k: int| Seq::new(old(self).total() as nat, |i: int| origin),
            ),
            final(self).columns().integrator_velocity_slots == Seq::new(
                integrator_velocity_slots as nat,
                |k: int| Seq::new(old(self).total() as nat, |i: int| zero),
            ),
            final(self).columns().solver_position_slots == Seq::new(
                pressure_solver_position_slots as nat,
                |k: int| Seq::new(old(self).total() as nat, |i: int| origin),
            ),
            final(self).columns().solver_velocity_slots == Seq::new(
                pressure_solver_velocity_slots as nat,
                |k: int| Seq::new(old(self).total() as nat, |i: int| zero),
            ),
    {
        let len = self.total_len();
        self.integrator_position_slots = filled_lists(integrator_position_slots, len, origin);
        self.integrator_velocity_slots = filled_lists(integrator_velocity_slots, len, zero);
        self.solver_position_slots = filled_lists(pressure_solver_position_slots, len, origin);
        self.solver_velocity_slots = filled_lists(pressure_solver_velocity_slots, len, zero);
        proof {
            assert(views(self.integrator_position_slots@) =~~= Seq::new(
                integrator_position_slots as nat,
                |k: int| Seq::new(len as nat, |i: int| origin),
            ));
            assert(views(self.integrator_velocity_slots@) =~~= Seq::new(
                integrator_velocity_slots as nat,
                |k: int| Seq::new(len as nat, |i: int| zero),
            ));
            assert(views(self.solver_position_slots@) =~~= Seq::new(
                pressure_solver_position_slots as nat,
                |k: int| Seq::new(len as nat, |i: int| origin),
            ));
            assert(views(self.solver_velocity_slots@) =~~= Seq::new(
                pressure_solver_velocity_slots as nat,
                |k: int| Seq::new(len as nat, |i: int| zero),
            ));
        }
    }
}

impl<P: Copy, V, S: Copy> Fluid<P, V, S> {
    /// The active particles grouped by fluid id, in ascending id order: per
    /// fluid its particles' positions in order and the mass of its first
    /// active particle (what one surface per fluid is reconstructed from).
    pub fn group_active_by_fluid_id(&self) -> (groups: Vec<crate::sph::grouping::FluidGroup<P, S>>)
        requires
            self.wf(),
        ensures
            crate::sph::grouping::grouped(
                groups@,
                self.columns().fluid_id,
                self.columns().position,
                self.columns().mass,
                self.active(),
            ),
    {
        crate::sph::grouping::group_by_fluid_id(&self.fluid_id, &self.position, &self.mass, self.num_active)
    }
}

impl<P, V, S> Len for Fluid<P, V, S> {
    /// Number of active particles.
    open spec fn counted(&self) -> int {
        self.active()
    }

    fn len(&self) -> (n: usize) {
        self.num_active
    }
}

} // verus!

verus! {

/// Disabling particle `id` among the first `n` active ones leaves, in any
/// column `s`, exactly the old active entries without the one of `id`: the
/// active part after the swap is, as a multiset, the old active part with
/// `s[id]` removed once.
pub proof fn lemma_disable_removes_exactly_one<T>(s: Seq<T>, n: int, id: int)
    requires
        0 <= id < n <= s.len(),
    ensures
        swapped(s, id, n - 1).take(n - 1).to_multiset() == s.take(n).to_multiset().remove(s[id]),
{
    broadcast use vstd::seq_lib::group_to_multiset_ensures;
    broadcast use vstd::multiset::group_multiset_axioms;

    let front = s.take(n - 1);
    assert(s.take(n) =~= front.push(s[n - 1]));
    vstd::seq_lib::to_multiset_build(front, s[n - 1]);
    if id == n - 1 {
        assert(swapped(s, id, n - 1).take(n - 1) =~= front);
        assert(front.to_multiset() =~= front.to_multiset().insert(s[id]).remove(s[id]));
    } else {
        assert(swapped(s, id, n - 1).take(n - 1) =~= front.update(id, s[n - 1]));
        vstd::seq_lib::to_multiset_update(front, id, s[n - 1]);
        assert(front[id] == s[id]);
    }
}

} // verus!

verus! {

/// Compressed fluid, i.e. a collection of samples, in a 3-dimensional
/// context: what a saved state keeps of a fluid.
#[derive(Debug, Clone)]
pub struct FluidCheckpoint<P, V, S> {
    pub fluid_id: Vec<u32>,
    pub position: Vec<P>,
    pub velocity: Vec<V>,
    pub mass: Vec<S>,
}

impl<P, V, S> Fluid<P, V, S> {
    /// Keeps the identifiers, positions, velocities and masses.
    pub fn into_checkpoint(self) -> (c: FluidCheckpoint<P, V, S>)
        ensures
            c.fluid_id@ == self.columns().fluid_id,
            c.position@ == self.columns().position,
            c.velocity@ == self.columns().velocity,
            c.mass@ == self.columns().mass,
    {
        FluidCheckpoint {
            fluid_id: self.fluid_id,
            position: self.position,
            velocity: self.velocity,
            mass: self.mass,
        }
    }
}

impl<P, V: Copy, S: Copy> FluidCheckpoint<P, V, S> {
    /// A fluid of the saved particles, all of them active, with zero
    /// acceleration, volume and pressure, and empty slot pools (sized once
    /// the integration scheme and pressure solver are known).
    pub fn into_fluid(self, zero: V, nil: S) -> (f: Fluid<P, V, S>)
        requires
            self.fluid_id@.len() == self.position@.len(),
            self.velocity@.len() == self.position@.len(),
            self.mass@.len() == self.position@.len(),
        ensures
            f.wf(),
            f.no_slots(),
            f.active() == self.position@.len(),
            f.columns().fluid_id == self.fluid_id@,
            f.columns().position == self.position@,
            f.columns().velocity == self.velocity@,
            f.columns().mass == self.mass@,
            f.columns().acceleration == Seq::new(self.position@.len(), |i: int| zero),
            f.columns().volume == Seq::new(self.position@.len(), |i: int| nil),
            f.columns().pressure == Seq::new(self.position@.len(), |i: int| nil),
    {
        let len = self.position.len();
        Fluid::from_fields(
            self.fluid_id,
            self.position,
            self.velocity,
            filled(len, zero),
            self.mass,
            filled(len, nil),
            filled(len, nil),
        )
    }
}

} // verus!

verus! {

/// Swapping the same two particles twice restores every column of the
/// fluid, the scratch slots included.
pub proof fn lemma_swap_twice<P, V, S>(c: FluidColumns<P, V, S>, a: int, b: int)
    requires
        c.all_len(c.position.len() as int),
        0 <= a < c.position.len(),
        0 <= b < c.position.len(),
    ensures
        c.swap(a, b).swap(a, b) == c,
{
    let d = c.swap(a, b).swap(a, b);
    crate::columns::lemma_swapped_twice(c.fluid_id, a, b);
    crate::columns::lemma_swapped_twice(c.position, a, b);
    crate::columns::lemma_swapped_twice(c.velocity, a, b);
    crate::columns::lemma_swapped_twice(c.acceleration, a, b);
    crate::columns::lemma_swapped_twice(c.mass, a, b);
    crate::columns::lemma_swapped_twice(c.volume, a, b);
    crate::columns::lemma_swapped_twice(c.pressure, a, b);
    assert forall|k: int| 0 <= k < c.integrator_position_slots.len() implies #[trigger] d.integrator_position_slots[k]
        == c.integrator_position_slots[k] by {
        crate::columns::lemma_swapped_twice(c.integrator_position_slots[k], a, b);
    }
    assert forall|k: int| 0 <= k < c.integrator_velocity_slots.len() implies #[trigger] d.integrator_velocity_slots[k]
        == c.integrator_velocity_slots[k] by {
        crate::columns::lemma_swapped_twice(c.integrator_velocity_slots[k], a, b);
    }
    assert forall|k: int| 0 <= k < c.solver_position_slots.len() implies #[trigger] d.solver_position_slots[k]
        == c.solver_position_slots[k] by {
        crate::columns::lemma_swapped_twice(c.solver_position_slots[k], a, b);
    }
    assert forall|k: int| 0 <= k < c.solver_velocity_slots.len() implies #[trigger] d.solver_velocity_slots[k]
        == c.solver_velocity_slots[k] by {
        crate::columns::lemma_swapped_twice(c.solver_velocity_slots[k], a, b);
    }
    assert(d.integrator_position_slots =~= c.integrator_position_slots);
    assert(d.integrator_velocity_slots =~= c.integrator_velocity_slots);
    assert(d.solver_position_slots =~= c.solver_position_slots);
    assert(d.solver_velocity_slots =~= c.solver_velocity_slots);
    assert(d =~= c);
}

} // verus!
