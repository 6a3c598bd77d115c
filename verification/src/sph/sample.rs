//! A representation of a collection of samples for an SPH fluid simulation
//! in a three-dimensional context: a fluid whose first `num_active` samples
//! are the active ones, and a boundary.
//!
//! `V` is the vector type (positions are vectors here) and `S` the scalar
//! type; the containers only move sample data around.
use vstd::prelude::*;

use crate::columns::{filled, swap_entries, swapped, views};

verus! {

pub trait Len {
    /// Number of samples that count.
    spec fn counted(&self) -> int;

    fn len(&self) -> (n: usize)
        ensures
            n == self.counted(),
    ;

    fn is_empty(&self) -> (b: bool)
        ensures
            b == (self.counted() == 0),
    {
        self.len() == 0
    }
}

/// Containers that samples can be appended to.
pub trait Expandable<V, S>: Sized {
    /// One more sample can be appended.
    spec fn has_room(&self) -> bool;

    /// The samples of `other` can be appended.
    spec fn can_take(&self, other: &Self) -> bool;

    fn push(&mut self, position: V, velocity: V, mass: S)
        requires
            old(self).has_room(),
    ;

    fn extend(&mut self, other: Self)
        requires
            old(self).can_take(&other),
    ;
}

pub trait Positional<V> {
    /// Number of samples that have a position.
    spec fn num_positions(&self) -> int;

    /// Position of sample `id`.
    fn pos_now(&self, id: usize) -> &V
        requires
            id < self.num_positions(),
    ;
}

/// Fluid, i.e. a collection of samples, which are identified by an ID (usize)
#[derive(Debug, Clone)]
pub struct Fluid3D<V, S> {
    num_active: usize,
    pub position: Vec<V>,
    pub position_prev: Vec<V>,
    pub position_pred: Vec<V>,
    pub velocity: Vec<V>,
    pub velocity_prev: Vec<V>,
    pub velocity_pred: Vec<V>,
    pub acceleration: Vec<V>,
    pub mass: Vec<S>,
    /// volume (necessary for sph fluid)
    pub volume: Vec<S>,
    pub pressure: Vec<S>,
    /// neighbors
    pub neighbors: Vec<Vec<usize>>,
    /// boundary neighbors
    pub boundary_neighbors: Vec<Vec<usize>>,
    /// Value a fresh entry of the predicted, previous-velocity and
    /// acceleration columns starts at.
    zero: V,
    /// Value a fresh entry of the volume and pressure columns starts at.
    nil: S,
}

/// The per-sample columns of a [`Fluid3D`], as sequences.
#[verifier::ext_equal]
pub struct Fluid3DColumns<V, S> {
    pub position: Seq<V>,
    pub position_prev: Seq<V>,
    pub position_pred: Seq<V>,
    pub velocity: Seq<V>,
    pub velocity_prev: Seq<V>,
    pub velocity_pred: Seq<V>,
    pub acceleration: Seq<V>,
    pub mass: Seq<S>,
    pub volume: Seq<S>,
    pub pressure: Seq<S>,
    pub neighbors: Seq<Seq<usize>>,
    pub boundary_neighbors: Seq<Seq<usize>>,
}

impl<V, S> Fluid3DColumns<V, S> {
    /// Every column holds `n` entries.
    pub open spec fn all_len(self, n: int) -> bool {
        &&& self.position.len() == n
        &&& self.position_prev.len() == n
        &&& self.position_pred.len() == n
        &&& self.velocity.len() == n
        &&& self.velocity_prev.len() == n
        &&& self.velocity_pred.len() == n
        &&& self.acceleration.len() == n
        &&& self.mass.len() == n
        &&& self.volume.len() == n
        &&& self.pressure.len() == n
        &&& self.neighbors.len() == n
        &&& self.boundary_neighbors.len() == n
    }

    /// Every column with the entries at `a` and `b` exchanged.
    pub open spec fn swap(self, a: int, b: int) -> Self {
        Fluid3DColumns {
            position: swapped(self.position, a, b),
            position_prev: swapped(self.position_prev, a, b),
            position_pred: swapped(self.position_pred, a, b),
            velocity: swapped(self.velocity, a, b),
            velocity_prev: swapped(self.velocity_prev, a, b),
            velocity_pred: swapped(self.velocity_pred, a, b),
            acceleration: swapped(self.acceleration, a, b),
            mass: swapped(self.mass, a, b),
            volume: swapped(self.volume, a, b),
            pressure: swapped(self.pressure, a, b),
            neighbors: swapped(self.neighbors, a, b),
            boundary_neighbors: swapped(self.boundary_neighbors, a, b),
        }
    }

    /// Every column cut down to its first `n` entries.
    pub open spec fn take(self, n: int) -> Self {
        Fluid3DColumns {
            position: self.position.take(n),
            position_prev: self.position_prev.take(n),
            position_pred: self.position_pred.take(n),
            velocity: self.velocity.take(n),
            velocity_prev: self.velocity_prev.take(n),
            velocity_pred: self.velocity_pred.take(n),
            acceleration: self.acceleration.take(n),
            mass: self.mass.take(n),
            volume: self.volume.take(n),
            pressure: self.pressure.take(n),
            neighbors: self.neighbors.take(n),
            boundary_neighbors: self.boundary_neighbors.take(n),
        }
    }

    /// The columns of `other` appended to these.
    pub open spec fn append(self, other: Self) -> Self {
        Fluid3DColumns {
            position: self.position + other.position,
            position_prev: self.position_prev + other.position_prev,
            position_pred: self.position_pred + other.position_pred,
            velocity: self.velocity + other.velocity,
            velocity_prev: self.velocity_prev + other.velocity_prev,
            velocity_pred: self.velocity_pred + other.velocity_pred,
            acceleration: self.acceleration + other.acceleration,
            mass: self.mass + other.mass,
            volume: self.volume + other.volume,
            pressure: self.pressure + other.pressure,
            neighbors: self.neighbors + other.neighbors,
            boundary_neighbors: self.boundary_neighbors + other.boundary_neighbors,
        }
    }

    /// A sample appended at the end: at `position` (also its previous
    /// position), moving at `velocity`, of `mass`, without neighbors, with
    /// `zero` and `nil` in the other columns.
    pub open spec fn push_sample(self, position: V, velocity: V, mass: S, zero: V, nil: S) -> Self {
        Fluid3DColumns {
            position: self.position.push(position),
            position_prev: self.position_prev.push(position),
            position_pred: self.position_pred.push(zero),
            velocity: self.velocity.push(velocity),
            velocity_prev: self.velocity_prev.push(zero),
            velocity_pred: self.velocity_pred.push(zero),
            acceleration: self.acceleration.push(zero),
            mass: self.mass.push(mass),
            volume: self.volume.push(nil),
            pressure: self.pressure.push(nil),
            neighbors: self.neighbors.push(Seq::empty()),
            boundary_neighbors: self.boundary_neighbors.push(Seq::empty()),
        }
    }

    /// The predicted positions become the current ones, the current ones
    /// the previous ones (and the previous ones the predicted ones).
    pub open spec fn rotate_position(self) -> Self {
        Fluid3DColumns {
            position_prev: self.position,
            position: self.position_pred,
            position_pred: self.position_prev,
            ..self
        }
    }

    /// The predicted velocities become the current ones, the current ones
    /// the previous ones (and the previous ones the predicted ones).
    pub open spec fn rotate_velocity(self) -> Self {
        Fluid3DColumns {
            velocity_prev: self.velocity,
            velocity: self.velocity_pred,
            velocity_pred: self.velocity_prev,
            ..self
        }
    }
}

impl<V, S> Fluid3D<V, S> {
    pub closed spec fn active(&self) -> int {
        self.num_active as int
    }

    /// All columns of the fluid.
    pub closed spec fn columns(&self) -> Fluid3DColumns<V, S> {
        Fluid3DColumns {
            position: self.position@,
            position_prev: self.position_prev@,
            position_pred: self.position_pred@,
            velocity: self.velocity@,
            velocity_prev: self.velocity_prev@,
            velocity_pred: self.velocity_pred@,
            acceleration: self.acceleration@,
            mass: self.mass@,
            volume: self.volume@,
            pressure: self.pressure@,
            neighbors: views(self.neighbors@),
            boundary_neighbors: views(self.boundary_neighbors@),
        }
    }

    /// Value fresh vector entries start at.
    pub closed spec fn fresh_vector(&self) -> V {
        self.zero
    }

    /// Value fresh scalar entries start at.
    pub closed spec fn fresh_scalar(&self) -> S {
        self.nil
    }

    /// Number of samples, active or not.
    pub open spec fn total(&self) -> int {
        self.columns().position.len() as int
    }

    /// All columns have the same length and the active samples lie within it.
    pub open spec fn wf(&self) -> bool {
        &&& self.columns().all_len(self.total())
        &&& self.active() <= self.total()
    }

    /// An empty fluid whose fresh entries start at `zero` and `nil`.
    pub fn new(zero: V, nil: S) -> (f: Self)
        ensures
            f.wf(),
            f.total() == 0,
            f.active() == 0,
            f.fresh_vector() == zero,
            f.fresh_scalar() == nil,
    {
        Self {
            num_active: 0,
            position: Vec::new(),
            position_prev: Vec::new(),
            position_pred: Vec::new(),
            velocity: Vec::new(),
            velocity_prev: Vec::new(),
            velocity_pred: Vec::new(),
            acceleration: Vec::new(),
            mass: Vec::new(),
            volume: Vec::new(),
            pressure: Vec::new(),
            neighbors: Vec::new(),
            boundary_neighbors: Vec::new(),
            zero,
            nil,
        }
    }

    /// Total number of samples, inactive ones included.
    pub fn total_len(&self) -> (n: usize)
        ensures
            n == self.total(),
    {
        self.position.len()
    }

    /// The predicted positions become the current ones, the current ones
    /// the previous ones.
    pub fn accept_pred_pos(&mut self)
        ensures
            final(self).active() == old(self).active(),
            final(self).columns() == old(self).columns().rotate_position(),
            final(self).fresh_vector() == old(self).fresh_vector(),
            final(self).fresh_scalar() == old(self).fresh_scalar(),
            old(self).wf() ==> final(self).wf(),
    {
        std::mem::swap(&mut self.position_prev, &mut self.position);
        std::mem::swap(&mut self.position, &mut self.position_pred);
        proof {
            assert(self.columns() =~~= old(self).columns().rotate_position());
        }
    }

    /// The predicted velocities become the current ones, the current ones
    /// the previous ones.
    pub fn accept_pred_vel(&mut self)
        ensures
            final(self).active() == old(self).active(),
            final(self).columns() == old(self).columns().rotate_velocity(),
            final(self).fresh_vector() == old(self).fresh_vector(),
            final(self).fresh_scalar() == old(self).fresh_scalar(),
            old(self).wf() ==> final(self).wf(),
    {
        std::mem::swap(&mut self.velocity_prev, &mut self.velocity);
        std::mem::swap(&mut self.velocity, &mut self.velocity_pred);
        proof {
            assert(self.columns() =~~= old(self).columns().rotate_velocity());
        }
    }

    /// Deactivates sample `id`: it changes places with the last active
    /// sample, which then stops counting as active.
    pub fn disable(&mut self, id: usize)
        requires
            old(self).wf(),
            id < old(self).active(),
        ensures
            final(self).wf(),
            final(self).active() == old(self).active() - 1,
            final(self).columns() == old(self).columns().swap(id as int, old(self).active() - 1),
            final(self).fresh_vector() == old(self).fresh_vector(),
            final(self).fresh_scalar() == old(self).fresh_scalar(),
    {
        self.num_active = self.num_active - 1;
        let last = self.num_active;
        self.swap(id, last);
    }

    /// Exchanges samples `a` and `b` in every column.
    fn swap(&mut self, a: usize, b: usize)
        requires
            old(self).wf(),
            a < old(self).total(),
            b < old(self).total(),
        ensures
            final(self).wf(),
            final(self).active() == old(self).active(),
            final(self).columns() == old(self).columns().swap(a as int, b as int),
            final(self).fresh_vector() == old(self).fresh_vector(),
            final(self).fresh_scalar() == old(self).fresh_scalar(),
    {
        if a == b {
            proof {
                let c = self.columns();
                assert(c.swap(a as int, b as int) =~~= c);
            }
            return;
        }
        swap_entries(&mut self.position, a, b);
        swap_entries(&mut self.position_prev, a, b);
        swap_entries(&mut self.position_pred, a, b);
        swap_entries(&mut self.velocity, a, b);
        swap_entries(&mut self.velocity_prev, a, b);
        swap_entries(&mut self.velocity_pred, a, b);
        swap_entries(&mut self.acceleration, a, b);
        swap_entries(&mut self.mass, a, b);
        swap_entries(&mut self.volume, a, b);
        swap_entries(&mut self.pressure, a, b);
        swap_entries(&mut self.neighbors, a, b);
        swap_entries(&mut self.boundary_neighbors, a, b);
        proof {
            assert(self.columns() =~~= old(self).columns().swap(a as int, b as int));
        }
    }

    /// Drops every inactive sample.
    pub fn drop_inactive(&mut self)
        requires
            old(self).wf(),
        ensures
            final(self).wf(),
            final(self).active() == old(self).active(),
            final(self).total() == old(self).active(),
            final(self).columns() == old(self).columns().take(old(self).active()),
            final(self).fresh_vector() == old(self).fresh_vector(),
            final(self).fresh_scalar() == old(self).fresh_scalar(),
    {
        let n = self.num_active;
        self.position.truncate(n);
        self.position_prev.truncate(n);
        self.position_pred.truncate(n);
        self.velocity.truncate(n);
        self.velocity_prev.truncate(n);
        self.velocity_pred.truncate(n);
        self.acceleration.truncate(n);
        self.mass.truncate(n);
        self.volume.truncate(n);
        self.pressure.truncate(n);
        self.neighbors.truncate(n);
        self.boundary_neighbors.truncate(n);
        proof {
            assert(self.columns() =~~= old(self).columns().take(n as int));
        }
    }
}

impl<V: Copy, S: Copy> Fluid3D<V, S> {
    /// A fluid of saved samples, all of them active and of the same `mass`,
    /// without neighbors; the other columns start at `zero` and `nil`.
    pub fn from_saved(position: Vec<V>, velocity: Vec<V>, mass: S, zero: V, nil: S) -> (f: Self)
        ensures
            f.active() == position@.len(),
            f.columns() == (Fluid3DColumns {
                position: position@,
                position_prev: Seq::new(position@.len(), |i: int| zero),
                position_pred: Seq::new(position@.len(), |i: int| zero),
                velocity: velocity@,
                velocity_prev: Seq::new(position@.len(), |i: int| zero),
                velocity_pred: Seq::new(position@.len(), |i: int| zero),
                acceleration: Seq::new(position@.len(), |i: int| zero),
                mass: Seq::new(position@.len(), |i: int| mass),
                volume: Seq::new(position@.len(), |i: int| nil),
                pressure: Seq::new(position@.len(), |i: int| nil),
                neighbors: Seq::new(position@.len(), |i: int| Seq::<usize>::empty()),
                boundary_neighbors: Seq::new(position@.len(), |i: int| Seq::<usize>::empty()),
            }),
            f.fresh_vector() == zero,
            f.fresh_scalar() == nil,
            velocity@.len() == position@.len() ==> f.wf(),
    {
        let len = position.len();
        let neighbors = crate::columns::empty_lists(len);
        let boundary_neighbors = crate::columns::empty_lists(len);
        let f = Self {
            num_active: len,
            position,
            position_prev: filled(len, zero),
            position_pred: filled(len, zero),
            velocity,
            velocity_prev: filled(len, zero),
            velocity_pred: filled(len, zero),
            acceleration: filled(len, zero),
            mass: filled(len, mass),
            volume: filled(len, nil),
            pressure: filled(len, nil),
            neighbors,
            boundary_neighbors,
            zero,
            nil,
        };
        proof {
            assert(views(f.neighbors@) =~~= Seq::new(len as nat, |i: int| Seq::<usize>::empty()));
            assert(views(f.boundary_neighbors@) =~~= Seq::new(
                len as nat,
                |i: int| Seq::<usize>::empty(),
            ));
        }
        f
    }

    /// What a saved state keeps of a fluid: positions, velocities and the
    /// mass of the first sample.
    pub fn into_saved(self) -> (s: SerFluid3D<V, S>)
        requires
            self.columns().mass.len() > 0,
        ensures
            s.position@ == self.columns().position,
            s.velocity@ == self.columns().velocity,
            s.mass == self.columns().mass[0],
    {
        let mass = self.mass[0];
        SerFluid3D { position: self.position, velocity: self.velocity, mass }
    }
}

impl<V, S> Len for Fluid3D<V, S> {
    /// Number of active samples.
    open spec fn counted(&self) -> int {
        self.active()
    }

    fn len(&self) -> (n: usize) {
        self.num_active
    }
}

impl<V: Copy, S: Copy> Expandable<V, S> for Fluid3D<V, S> {
    open spec fn has_room(&self) -> bool {
        &&& self.wf()
        &&& self.total() < usize::MAX
    }

    open spec fn can_take(&self, other: &Self) -> bool {
        &&& self.active() == self.total()
        &&& self.total() + other.total() <= usize::MAX
    }

    /// Appends a sample and makes it the last active one: the first
    /// inactive sample, if any, moves to the end.
    fn push(&mut self, position: V, velocity: V, mass: S)
        ensures
            final(self).wf(),
            final(self).active() == old(self).active() + 1,
            final(self).columns() == old(self).columns().push_sample(
                position,
                velocity,
                mass,
                old(self).fresh_vector(),
                old(self).fresh_scalar(),
            ).swap(old(self).active(), old(self).total()),
            final(self).fresh_vector() == old(self).fresh_vector(),
            final(self).fresh_scalar() == old(self).fresh_scalar(),
    {
        let zero = self.zero;
        let nil = self.nil;
        self.position.push(position);
        self.position_prev.push(position);
        self.position_pred.push(zero);
        self.velocity.push(velocity);
        self.velocity_prev.push(zero);
        self.velocity_pred.push(zero);
        self.acceleration.push(zero);
        self.mass.push(mass);
        self.volume.push(nil);
        self.pressure.push(nil);
        self.neighbors.push(Vec::new());
        self.boundary_neighbors.push(Vec::new());
        proof {
            assert(self.columns() =~~= old(self).columns().push_sample(position, velocity, mass, zero, nil));
        }

        let insert_at = self.num_active;
        let last = self.position.len() - 1;

        if insert_at != last {
            self.swap(insert_at, last);
        } else {
            proof {
                let c = self.columns();
                assert(c.swap(insert_at as int, last as int) =~~= c);
            }
        }

        self.num_active = self.num_active + 1;
    }

    /// Appends the samples of `other` to a fluid without inactive samples;
    /// the active count stays as it was.
    fn extend(&mut self, other: Self)
        ensures
            final(self).active() == old(self).active(),
            final(self).columns() == old(self).columns().append(other.columns()),
            final(self).fresh_vector() == old(self).fresh_vector(),
            final(self).fresh_scalar() == old(self).fresh_scalar(),
            old(self).wf() && other.wf() ==> final(self).wf(),
    {
        let ghost appended = other.columns();
        let mut other = other;
        self.position.append(&mut other.position);
        self.position_prev.append(&mut other.position_prev);
        self.position_pred.append(&mut other.position_pred);
        self.velocity.append(&mut other.velocity);
        self.velocity_prev.append(&mut other.velocity_prev);
        self.velocity_pred.append(&mut other.velocity_pred);
        self.acceleration.append(&mut other.acceleration);
        self.mass.append(&mut other.mass);
        self.volume.append(&mut other.volume);
        self.pressure.append(&mut other.pressure);
        self.neighbors.append(&mut other.neighbors);
        self.boundary_neighbors.append(&mut other.boundary_neighbors);
        proof {
            assert(self.columns() =~~= old(self).columns().append(appended));
        }
    }
}

impl<V, S> Positional<V> for Fluid3D<V, S> {
    open spec fn num_positions(&self) -> int {
        self.total()
    }

    fn pos_now(&self, id: usize) -> (p: &V)
        ensures
            *p == self.columns().position[id as int],
    {
        &self.position[id]
    }
}

/// Compressed fluid, i.e. a collection of samples, in a 3-dimensional
/// context; `C` is the type of saved coordinates.
#[derive(Debug, Clone)]
pub struct SerFluid3D<C, S> {
    pub position: Vec<C>,
    pub velocity: Vec<C>,
    pub mass: S,
}

impl<C: Copy, S> SerFluid3D<C, S> {
    pub fn vel_now(&self, id: usize) -> (v: C)
        requires
            id < self.velocity@.len(),
        ensures
            v == self.velocity@[id as int],
    {
        self.velocity[id]
    }
}

/// Boundary represented by samples, which are identified by an ID (usize)
#[derive(Debug, Clone)]
pub struct Boundary3D<V, S> {
    pub position: Vec<V>,
    velocity: Vec<V>,
    /// volume (necessary for sph fluid)
    volume: Vec<S>,
}

impl<V, S> Boundary3D<V, S> {
    pub closed spec fn positions(&self) -> Seq<V> {
        self.position@
    }

    pub closed spec fn velocities(&self) -> Seq<V> {
        self.velocity@
    }

    pub closed spec fn volumes(&self) -> Seq<S> {
        self.volume@
    }

    /// An empty boundary.
    pub fn new() -> (b: Self)
        ensures
            b.positions().len() == 0,
            b.velocities().len() == 0,
            b.volumes().len() == 0,
    {
        Self { position: Vec::new(), velocity: Vec::new(), volume: Vec::new() }
    }

    /// Velocity of sample `id`.
    pub fn vel_now(&self, id: usize) -> (v: &V)
        requires
            id < self.velocities().len(),
        ensures
            *v == self.velocities()[id as int],
    {
        &self.velocity[id]
    }

    pub fn set_volume(&mut self, id: usize, volume: S)
        requires
            id < old(self).volumes().len(),
        ensures
            final(self).volumes() == old(self).volumes().update(id as int, volume),
            final(self).positions() == old(self).positions(),
            final(self).velocities() == old(self).velocities(),
    {
        self.volume.set(id, volume);
    }

    /// Volume of sample `id`.
    pub fn volume(&self, id: usize) -> (s: &S)
        requires
            id < self.volumes().len(),
        ensures
            *s == self.volumes()[id as int],
    {
        &self.volume[id]
    }

    /// What a saved state keeps of a boundary: positions and velocities.
    pub fn into_saved(self) -> (s: SerBoundary3D<V>)
        ensures
            s.position@ == self.positions(),
            s.velocity@ == self.velocities(),
    {
        SerBoundary3D { position: self.position, velocity: self.velocity }
    }
}

impl<V, S: Copy> Boundary3D<V, S> {
    /// A boundary of saved samples, with volume `nil` each.
    pub fn from_saved(saved: SerBoundary3D<V>, nil: S) -> (b: Self)
        ensures
            b.positions() == saved.position@,
            b.velocities() == saved.velocity@,
            b.volumes() == Seq::new(saved.position@.len(), |i: int| nil),
    {
        let len = saved.position.len();
        Self { position: saved.position, velocity: saved.velocity, volume: filled(len, nil) }
    }
}

impl<V, S> Len for Boundary3D<V, S> {
    /// Number of samples.
    open spec fn counted(&self) -> int {
        self.positions().len() as int
    }

    fn len(&self) -> (n: usize) {
        self.position.len()
    }
}

impl<V, S> Expandable<V, S> for Boundary3D<V, S> {
    open spec fn has_room(&self) -> bool {
        &&& self.positions().len() < usize::MAX
        &&& self.velocities().len() < usize::MAX
        &&& self.volumes().len() < usize::MAX
    }

    open spec fn can_take(&self, other: &Self) -> bool {
        &&& self.positions().len() + other.positions().len() <= usize::MAX
        &&& self.velocities().len() + other.velocities().len() <= usize::MAX
        &&& self.volumes().len() + other.volumes().len() <= usize::MAX
    }

    /// Appends a sample of the given `volume` (the last parameter is the
    /// volume for a boundary).
    fn push(&mut self, position: V, velocity: V, volume: S)
        ensures
            final(self).positions() == old(self).positions().push(position),
            final(self).velocities() == old(self).velocities().push(velocity),
            final(self).volumes() == old(self).volumes().push(volume),
    {
        self.position.push(position);
        self.velocity.push(velocity);
        self.volume.push(volume);
    }

    fn extend(&mut self, other: Self)
        ensures
            final(self).positions() == old(self).positions() + other.positions(),
            final(self).velocities() == old(self).velocities() + other.velocities(),
            final(self).volumes() == old(self).volumes() + other.volumes(),
    {
        let mut other = other;
        self.position.append(&mut other.position);
        self.velocity.append(&mut other.velocity);
        self.volume.append(&mut other.volume);
    }
}

impl<V, S> Positional<V> for Boundary3D<V, S> {
    open spec fn num_positions(&self) -> int {
        self.positions().len() as int
    }

    fn pos_now(&self, id: usize) -> (p: &V)
        ensures
            *p == self.positions()[id as int],
    {
        &self.position[id]
    }
}

/// Compressed and serializable boundary samples in a 3-dimensional
/// context; `C` is the type of saved coordinates.
#[derive(Debug, Clone)]
pub struct SerBoundary3D<C> {
    pub position: Vec<C>,
    pub velocity: Vec<C>,
}

} // verus!

verus! {

/// Accepting the predicted positions three times gives the starting
/// positions back: the three position columns only change places.
pub proof fn lemma_accept_pred_pos_thrice<V, S>(c: Fluid3DColumns<V, S>)
    ensures
        c.rotate_position().rotate_position().rotate_position() == c,
{
    assert(c.rotate_position().rotate_position().rotate_position() =~~= c);
}

/// Accepting the predicted velocities three times gives the starting
/// velocities back.
pub proof fn lemma_accept_pred_vel_thrice<V, S>(c: Fluid3DColumns<V, S>)
    ensures
        c.rotate_velocity().rotate_velocity().rotate_velocity() == c,
{
    assert(c.rotate_velocity().rotate_velocity().rotate_velocity() =~~= c);
}

/// After a push onto a fluid with `n` active samples of `t` in all, the
/// first `n` samples are unchanged, the pushed sample is the last active
/// one, and the samples after it are the old inactive ones, the first of
/// them moved to the end.
pub proof fn lemma_push_keeps_active_prefix<T>(s: Seq<T>, x: T, n: int)
    requires
        0 <= n <= s.len(),
    ensures
        swapped(s.push(x), n, s.len() as int).take(n) == s.take(n),
        swapped(s.push(x), n, s.len() as int)[n] == x,
        n < s.len() ==> swapped(s.push(x), n, s.len() as int)[s.len() as int] == s[n],
        forall|i: int| n < i < s.len() ==> #[trigger] swapped(s.push(x), n, s.len() as int)[i] == s[i],
{
    assert(swapped(s.push(x), n, s.len() as int).take(n) =~= s.take(n));
}

} // verus!

verus! {

/// Swapping the same two samples twice restores the fluid's columns.
pub proof fn lemma_swap_twice<V, S>(c: Fluid3DColumns<V, S>, a: int, b: int)
    requires
        c.all_len(c.position.len() as int),
        0 <= a < c.position.len(),
        0 <= b < c.position.len(),
    ensures
        c.swap(a, b).swap(a, b) == c,
{
    crate::columns::lemma_swapped_twice(c.position, a, b);
    crate::columns::lemma_swapped_twice(c.position_prev, a, b);
    crate::columns::lemma_swapped_twice(c.position_pred, a, b);
    crate::columns::lemma_swapped_twice(c.velocity, a, b);
    crate::columns::lemma_swapped_twice(c.velocity_prev, a, b);
    crate::columns::lemma_swapped_twice(c.velocity_pred, a, b);
    crate::columns::lemma_swapped_twice(c.acceleration, a, b);
    crate::columns::lemma_swapped_twice(c.mass, a, b);
    crate::columns::lemma_swapped_twice(c.volume, a, b);
    crate::columns::lemma_swapped_twice(c.pressure, a, b);
    crate::columns::lemma_swapped_twice(c.neighbors, a, b);
    crate::columns::lemma_swapped_twice(c.boundary_neighbors, a, b);
    assert(c.swap(a, b).swap(a, b) =~~= c);
}

} // verus!
