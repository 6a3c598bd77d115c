//! A collection of fluid samples for an SPH fluid simulation, keeping the
//! previous and the predicted position and velocity of every particle next
//! to the current ones.  The first `num_active` particles are the active ones.
//!
//! The container is generic over the position type `P`, the vector type `V`
//! and the scalar type `S`; it only moves particle data around.
use vstd::prelude::*;

use crate::columns::{swap_entries, swapped};

verus! {

pub trait Len {
    /// Number of samples that count.
    spec fn counted(&self) -> int;

    fn len(&self) -> (n: usize)
        ensures
            n == self.counted(),
    ;

    fn is_empty(&self) -> (b: bool)
        ensures
            b == (self.counted() == 0),
    {
        self.len() == 0
    }
}

pub trait Positional<P> {
    /// Number of samples that have a position.
    spec fn num_positions(&self) -> int;

    /// Position of sample `id`.
    fn pos_now(&self, id: usize) -> &P
        requires
            id < self.num_positions(),
    ;
}

/// Fluid, i.e. a collection of samples, which are identified by an ID (usize)
#[derive(Debug, Clone)]
pub struct Fluid<P, V, S> {
    num_active: usize,
    pub fluid_id: Vec<u32>,
    pub position: Vec<P>,
    pub position_prev: Vec<P>,
    pub position_pred: Vec<P>,
    pub velocity: Vec<V>,
    pub velocity_prev: Vec<V>,
    pub velocity_pred: Vec<V>,
    pub acceleration: Vec<V>,
    pub mass: Vec<S>,
    /// volume (necessary for sph fluid)
    pub volume: Vec<S>,
    pub pressure: Vec<S>,
}

/// The per-particle columns of a fluid, as sequences.
#[verifier::ext_equal]
pub struct Columns<P, V, S> {
    pub fluid_id: Seq<u32>,
    pub position: Seq<P>,
    pub position_prev: Seq<P>,
    pub position_pred: Seq<P>,
    pub velocity: Seq<V>,
    pub velocity_prev: Seq<V>,
    pub velocity_pred: Seq<V>,
    pub acceleration: Seq<V>,
    pub mass: Seq<S>,
    pub volume: Seq<S>,
    pub pressure: Seq<S>,
}

impl<P, V, S> Columns<P, V, S> {
    /// Every column holds `n` entries.
    pub open spec fn all_len(self, n: int) -> bool {
        &&& self.fluid_id.len() == n
        &&& self.position.len() == n
        &&& self.position_prev.len() == n
        &&& self.position_pred.len() == n
        &&& self.velocity.len() == n
        &&& self.velocity_prev.len() == n
        &&& self.velocity_pred.len() == n
        &&& self.acceleration.len() == n
        &&& self.mass.len() == n
        &&& self.volume.len() == n
        &&& self.pressure.len() == n
    }

    /// Every column with the entries at `a` and `b` exchanged.
    pub open spec fn swap(self, a: int, b: int) -> Self {
        Columns {
            fluid_id: swapped(self.fluid_id, a, b),
            position: swapped(self.position, a, b),
            position_prev: swapped(self.position_prev, a, b),
            position_pred: swapped(self.position_pred, a, b),
            velocity: swapped(self.velocity, a, b),
            velocity_prev: swapped(self.velocity_prev, a, b),
            velocity_pred: swapped(self.velocity_pred, a, b),
            acceleration: swapped(self.acceleration, a, b),
            mass: swapped(self.mass, a, b),
            volume: swapped(self.volume, a, b),
            pressure: swapped(self.pressure, a, b),
        }
    }

    /// Every column cut down to its first `n` entries.
    pub open spec fn take(self, n: int) -> Self {
        Columns {
            fluid_id: self.fluid_id.take(n),
            position: self.position.take(n),
            position_prev: self.position_prev.take(n),
            position_pred: self.position_pred.take(n),
            velocity: self.velocity.take(n),
            velocity_prev: self.velocity_prev.take(n),
            velocity_pred: self.velocity_pred.take(n),
            acceleration: self.acceleration.take(n),
            mass: self.mass.take(n),
            volume: self.volume.take(n),
            pressure: self.pressure.take(n),
        }
    }

    /// Every column of `self` followed by the same column of `other`.
    pub open spec fn append(self, other: Self) -> Self {
        Columns {
            fluid_id: self.fluid_id + other.fluid_id,
            position: self.position + other.position,
            position_prev: self.position_prev + other.position_prev,
            position_pred: self.position_pred + other.position_pred,
            velocity: self.velocity + other.velocity,
            velocity_prev: self.velocity_prev + other.velocity_prev,
            velocity_pred: self.velocity_pred + other.velocity_pred,
            acceleration: self.acceleration + other.acceleration,
            mass: self.mass + other.mass,
            volume: self.volume + other.volume,
            pressure: self.pressure + other.pressure,
        }
    }

    /// Previous, current and predicted positions move one place on:
    /// the current becomes the previous, the predicted the current, and
    /// the old previous one is left as the new predicted (scratch) column.
    pub open spec fn rotate_position(self) -> Self {
        Columns {
            position_prev: self.position,
            position: self.position_pred,
            position_pred: self.position_prev,
            ..self
        }
    }

    /// Same as [`Self::rotate_position`] for the velocities.
    pub open spec fn rotate_velocity(self) -> Self {
        Columns {
            velocity_prev: self.velocity,
            velocity: self.velocity_pred,
            velocity_pred: self.velocity_prev,
            ..self
        }
    }
}

impl<P, V, S> Fluid<P, V, S> {
    pub closed spec fn active(&self) -> int {
        self.num_active as int
    }

    /// All columns of the fluid.
    pub closed spec fn columns(&self) -> Columns<P, V, S> {
        Columns {
            fluid_id: self.fluid_id@,
            position: self.position@,
            position_prev: self.position_prev@,
            position_pred: self.position_pred@,
            velocity: self.velocity@,
            velocity_prev: self.velocity_prev@,
            velocity_pred: self.velocity_pred@,
            acceleration: self.acceleration@,
            mass: self.mass@,
            volume: self.volume@,
            pressure: self.pressure@,
        }
    }

    /// Number of particles, active or not.
    pub open spec fn total(&self) -> int {
        self.columns().position.len() as int
    }

    /// All columns have the same length and the active particles lie within it.
    pub open spec fn wf(&self) -> bool {
        &&& self.columns().all_len(self.total())
        &&& self.active() <= self.total()
    }

    /// An empty fluid.
    pub fn new() -> (f: Self)
        ensures
            f.wf(),
            f.total() == 0,
            f.active() == 0,
    {
        Self {
            num_active: 0,
            fluid_id: Vec::new(),
            position: Vec::new(),
            position_prev: Vec::new(),
            position_pred: Vec::new(),
            velocity: Vec::new(),
            velocity_prev: Vec::new(),
            velocity_pred: Vec::new(),
            acceleration: Vec::new(),
            mass: Vec::new(),
            volume: Vec::new(),
            pressure: Vec::new(),
        }
    }

    /// A fluid of the given columns, all of whose particles are active.
    pub fn from_fields(
        fluid_id: Vec<u32>,
        position: Vec<P>,
        position_prev: Vec<P>,
        position_pred: Vec<P>,
        velocity: Vec<V>,
        velocity_prev: Vec<V>,
        velocity_pred: Vec<V>,
        acceleration: Vec<V>,
        mass: Vec<S>,
        volume: Vec<S>,
        pressure: Vec<S>,
    ) -> (f: Self)
        requires
            fluid_id@.len() == position@.len(),
            position_prev@.len() == position@.len(),
            position_pred@.len() == position@.len(),
            velocity@.len() == position@.len(),
            velocity_prev@.len() == position@.len(),
            velocity_pred@.len() == position@.len(),
            acceleration@.len() == position@.len(),
            mass@.len() == position@.len(),
            volume@.len() == position@.len(),
            pressure@.len() == position@.len(),
        ensures
            f.wf(),
            f.active() == position@.len(),
            f.columns() == (Columns {
                fluid_id: fluid_id@,
                position: position@,
                position_prev: position_prev@,
                position_pred: position_pred@,
                velocity: velocity@,
                velocity_prev: velocity_prev@,
                velocity_pred: velocity_pred@,
                acceleration: acceleration@,
                mass: mass@,
                volume: volume@,
                pressure: pressure@,
            }),
    {
        let len = position.len();
        Self {
            num_active: len,
            fluid_id,
            position,
            position_prev,
            position_pred,
            velocity,
            velocity_prev,
            velocity_pred,
            acceleration,
            mass,
            volume,
            pressure,
        }
    }

    /// Appends the particles of `other` (all of them counted active) to a
    /// fluid without inactive particles.
    pub fn extend(&mut self, other: Self)
        requires
            old(self).wf(),
            other.wf(),
            old(self).active() == old(self).total(),
            old(self).total() + other.active() <= usize::MAX,
        ensures
            final(self).wf(),
            final(self).active() == old(self).active() + other.active(),
            final(self).columns() == old(self).columns().append(other.columns()),
    {
        let mut o = other;
        self.num_active = self.num_active + o.num_active;
        self.fluid_id.append(&mut o.fluid_id);
        self.position.append(&mut o.position);
        self.position_prev.append(&mut o.position_prev);
        self.position_pred.append(&mut o.position_pred);
        self.velocity.append(&mut o.velocity);
        self.velocity_prev.append(&mut o.velocity_prev);
        self.velocity_pred.append(&mut o.velocity_pred);
        self.acceleration.append(&mut o.acceleration);
        self.mass.append(&mut o.mass);
        self.volume.append(&mut o.volume);
        self.pressure.append(&mut o.pressure);
        proof {
            assert(self.columns() =~~= old(self).columns().append(other.columns()));
        }
    }

    /// Total numer of fluid samples, active or not.
    pub fn total_len(&self) -> (n: usize)
        ensures
            n == self.total(),
    {
        self.position.len()
    }

    /// The predicted positions become the current ones, the current ones
    /// the previous ones.
    pub fn rotate_position(&mut self)
        ensures
            final(self).active() == old(self).active(),
            final(self).columns() == old(self).columns().rotate_position(),
            old(self).wf() ==> final(self).wf(),
    {
        std::mem::swap(&mut self.position_prev, &mut self.position);
        std::mem::swap(&mut self.position, &mut self.position_pred);
        proof {
            assert(self.columns() =~~= old(self).columns().rotate_position());
        }
    }

    /// The predicted velocities become the current ones, the current ones
    /// the previous ones.
    pub fn rotate_velocity(&mut self)
        ensures
            final(self).active() == old(self).active(),
            final(self).columns() == old(self).columns().rotate_velocity(),
            old(self).wf() ==> final(self).wf(),
    {
        std::mem::swap(&mut self.velocity_prev, &mut self.velocity);
        std::mem::swap(&mut self.velocity, &mut self.velocity_pred);
        proof {
            assert(self.columns() =~~= old(self).columns().rotate_velocity());
        }
    }

    /// Exchanges particles `a` and `b` in every column.
    pub fn swap(&mut self, a: usize, b: usize)
        requires
            old(self).wf(),
            a < old(self).total(),
            b < old(self).total(),
        ensures
            final(self).wf(),
            final(self).active() == old(self).active(),
            final(self).columns() == old(self).columns().swap(a as int, b as int),
    {
        if a == b {
            proof {
                let c = self.columns();
                assert(c.swap(a as int, b as int) =~~= c);
            }
            return;
        }
        swap_entries(&mut self.fluid_id, a, b);
        swap_entries(&mut self.position, a, b);
        swap_entries(&mut self.position_prev, a, b);
        swap_entries(&mut self.position_pred, a, b);
        swap_entries(&mut self.velocity, a, b);
        swap_entries(&mut self.velocity_prev, a, b);
        swap_entries(&mut self.velocity_pred, a, b);
        swap_entries(&mut self.acceleration, a, b);
        swap_entries(&mut self.mass, a, b);
        swap_entries(&mut self.volume, a, b);
        swap_entries(&mut self.pressure, a, b);
        proof {
            assert(self.columns() =~~= old(self).columns().swap(a as int, b as int));
        }
    }

    /// Deactivates particle `id`: it changes places with the last active
    /// particle, which then stops counting as active.
    pub fn disable(&mut self, id: usize)
        requires
            old(self).wf(),
            id < old(self).active(),
        ensures
            final(self).wf(),
            final(self).active() == old(self).active() - 1,
            final(self).columns() == old(self).columns().swap(id as int, old(self).active() - 1),
    {
        self.num_active = self.num_active - 1;
        let last = self.num_active;
        self.swap(id, last);
    }

    /// Drops every inactive particle.
    pub fn drop_inactive(&mut self)
        requires
            old(self).wf(),
        ensures
            final(self).wf(),
            final(self).active() == old(self).active(),
            final(self).total() == old(self).active(),
            final(self).columns() == old(self).columns().take(old(self).active()),
    {
        let n = self.num_active;
        self.fluid_id.truncate(n);
        self.position.truncate(n);
        self.position_prev.truncate(n);
        self.position_pred.truncate(n);
        self.velocity.truncate(n);
        self.velocity_prev.truncate(n);
        self.velocity_pred.truncate(n);
        self.acceleration.truncate(n);
        self.mass.truncate(n);
        self.volume.truncate(n);
        self.pressure.truncate(n);
        proof {
            assert(self.columns() =~~= old(self).columns().take(n as int));
        }
    }

    /// Keeps the identifiers, positions, velocities and masses.
    pub fn into_checkpoint(self) -> (c: FluidCheckpoint<P, V, S>)
        ensures
            c.fluid_id@ == self.columns().fluid_id,
            c.position@ == self.columns().position,
            c.velocity@ == self.columns().velocity,
            c.mass@ == self.columns().mass,
    {
        FluidCheckpoint {
            fluid_id: self.fluid_id,
            position: self.position,
            velocity: self.velocity,
            mass: self.mass,
        }
    }
}

impl<P: Copy, V, S: Copy> Fluid<P, V, S> {
    /// The active particles grouped by fluid id, in ascending id order: per
    /// fluid its particles' positions in order and the mass of its first
    /// active particle (what one surface per fluid is reconstructed from).
    pub fn group_active_by_fluid_id(&self) -> (groups: Vec<crate::sph::grouping::FluidGroup<P, S>>)
        requires
            self.wf(),
        ensures
            crate::sph::grouping::grouped(
                groups@,
                self.columns().fluid_id,
                self.columns().position,
                self.columns().mass,
                self.active(),
            ),
    {
        crate::sph::grouping::group_by_fluid_id(&self.fluid_id, &self.position, &self.mass, self.num_active)
    }
}

impl<P, V, S> Len for Fluid<P, V, S> {
    /// Number of active particles.
    open spec fn counted(&self) -> int {
        self.active()
    }

    fn len(&self) -> (n: usize) {
        self.num_active
    }
}

impl<P, V, S> Positional<P> for Fluid<P, V, S> {
    open spec fn num_positions(&self) -> int {
        self.total()
    }

    fn pos_now(&self, id: usize) -> (p: &P)
        ensures
            *p == self.columns().position[id as int],
    {
        &self.position[id]
    }
}

/// Compressed fluid, i.e. a collection of samples, in a 3-dimensional
/// context: what a saved state keeps of a fluid.
#[derive(Debug, Clone)]
pub struct FluidCheckpoint<P, V, S> {
    pub fluid_id: Vec<u32>,
    pub position: Vec<P>,
    pub velocity: Vec<V>,
    pub mass: Vec<S>,
}

impl<P: Copy, V: Copy, S: Copy> Fluid<P, V, S> {
    /// Appends samples of fluid `fluid_id` at the given positions, each of
    /// mass `mass` and at rest: previous and predicted positions `origin`,
    /// `zero` velocities and acceleration, `nil` volume and pressure.  All
    /// of them are active.
    pub fn add_samples(&mut self, position: Vec<P>, fluid_id: u32, mass: S, origin: P, zero: V, nil: S)
        requires
            old(self).wf(),
            old(self).active() == old(self).total(),
            old(self).total() + position@.len() <= usize::MAX,
        ensures
            final(self).wf(),
            final(self).active() == old(self).active() + position@.len(),
            final(self).columns() == old(self).columns().append(
                Columns {
                    fluid_id: Seq::new(position@.len(), |i: int| fluid_id),
                    position: position@,
                    position_prev: Seq::new(position@.len(), |i: int| origin),
                    position_pred: Seq::new(position@.len(), |i: int| origin),
                    velocity: Seq::new(position@.len(), |i: int| zero),
                    velocity_prev: Seq::new(position@.len(), |i: int| zero),
                    velocity_pred: Seq::new(position@.len(), |i: int| zero),
                    acceleration: Seq::new(position@.len(), |i: int| zero),
                    mass: Seq::new(position@.len(), |i: int| mass),
                    volume: Seq::new(position@.len(), |i: int| nil),
                    pressure: Seq::new(position@.len(), |i: int| nil),
                },
            ),
    {
        let len = position.len();
        let samples = Fluid::from_fields(
            crate::columns::filled(len, fluid_id),
            position,
            crate::columns::filled(len, origin),
            crate::columns::filled(len, origin),
            crate::columns::filled(len, zero),
            crate::columns::filled(len, zero),
            crate::columns::filled(len, zero),
            crate::columns::filled(len, zero),
            crate::columns::filled(len, mass),
            crate::columns::filled(len, nil),
            crate::columns::filled(len, nil),
        );
        self.extend(samples);
    }
}

impl<P: Copy, V: Copy, S: Copy> FluidCheckpoint<P, V, S> {
    /// A fluid of the saved particles, all of them active; the columns a
    /// checkpoint does not keep start out as `origin`, `zero` and `nil`.
    pub fn into_fluid(self, origin: P, zero: V, nil: S) -> (f: Fluid<P, V, S>)
        requires
            self.fluid_id@.len() == self.position@.len(),
            self.velocity@.len() == self.position@.len(),
            self.mass@.len() == self.position@.len(),
        ensures
            f.wf(),
            f.active() == self.position@.len(),
            f.columns().fluid_id == self.fluid_id@,
            f.columns().position == self.position@,
            f.columns().velocity == self.velocity@,
            f.columns().mass == self.mass@,
            f.columns().position_prev == Seq::new(self.position@.len(), |i: int| origin),
            f.columns().position_pred == Seq::new(self.position@.len(), |i: int| origin),
            f.columns().velocity_prev == Seq::new(self.position@.len(), |i: int| zero),
            f.columns().velocity_pred == Seq::new(self.position@.len(), |i: int| zero),
            f.columns().acceleration == Seq::new(self.position@.len(), |i: int| zero),
            f.columns().volume == Seq::new(self.position@.len(), |i: int| nil),
            f.columns().pressure == Seq::new(self.position@.len(), |i: int| nil),
    {
        let len = self.position.len();
        Fluid::from_fields(
            self.fluid_id,
            self.position,
            crate::columns::filled(len, origin),
            crate::columns::filled(len, origin),
            self.velocity,
            crate::columns::filled(len, zero),
            crate::columns::filled(len, zero),
            crate::columns::filled(len, zero),
            self.mass,
            crate::columns::filled(len, nil),
            crate::columns::filled(len, nil),
        )
    }
}

/// Rotating the positions three times gives back the columns it started from.
pub proof fn lemma_rotate_position_thrice<P, V, S>(c: Columns<P, V, S>)
    ensures
        c.rotate_position().rotate_position().rotate_position() == c,
{
    assert(c.rotate_position().rotate_position().rotate_position() =~~= c);
}

/// Rotating the velocities three times gives back the columns it started from.
pub proof fn lemma_rotate_velocity_thrice<P, V, S>(c: Columns<P, V, S>)
    ensures
        c.rotate_velocity().rotate_velocity().rotate_velocity() == c,
{
    assert(c.rotate_velocity().rotate_velocity().rotate_velocity() =~~= c);
}

} // verus!

verus! {

/// Swapping the same two particles twice restores every column.
pub proof fn lemma_swap_twice<P, V, S>(c: Columns<P, V, S>, a: int, b: int)
    requires
        c.all_len(c.position.len() as int),
        0 <= a < c.position.len(),
        0 <= b < c.position.len(),
    ensures
        c.swap(a, b).swap(a, b) == c,
{
    crate::columns::lemma_swapped_twice(c.fluid_id, a, b);
    crate::columns::lemma_swapped_twice(c.position, a, b);
    crate::columns::lemma_swapped_twice(c.position_prev, a, b);
    crate::columns::lemma_swapped_twice(c.position_pred, a, b);
    crate::columns::lemma_swapped_twice(c.velocity, a, b);
    crate::columns::lemma_swapped_twice(c.velocity_prev, a, b);
    crate::columns::lemma_swapped_twice(c.velocity_pred, a, b);
    crate::columns::lemma_swapped_twice(c.acceleration, a, b);
    crate::columns::lemma_swapped_twice(c.mass, a, b);
    crate::columns::lemma_swapped_twice(c.volume, a, b);
    crate::columns::lemma_swapped_twice(c.pressure, a, b);
    assert(c.swap(a, b).swap(a, b) =~= c);
}

} // verus!
