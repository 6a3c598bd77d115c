use nalgebra::{Point3, Vector3};
use sci_phi::sph::fluid::{Fluid, FluidCheckpoint, Len};
use sci_phi::sph::grouping::keep_nonempty_surfaces;

type F = Fluid<Point3<f64>, Vector3<f64>, f64>;

fn pos(x: f64, y: f64, z: f64) -> Point3<f64> {
    Point3::new(x, y, z)
}

fn vel(x: f64, y: f64, z: f64) -> Vector3<f64> {
    Vector3::new(x, y, z)
}

/// A fluid whose particles are all active, with the given positions and
/// masses and zeros elsewhere.
fn raw_fluid(positions: Vec<Point3<f64>>, masses: Vec<f64>) -> F {
    let len = positions.len();
    Fluid::from_fields(
        vec![0; len],
        positions,
        vec![Vector3::zeros(); len],
        vec![Vector3::zeros(); len],
        masses,
        vec![0.; len],
        vec![0.; len],
    )
}

#[test]
fn extend_appends_all_fields() {
    let mut a = raw_fluid(vec![pos(1., 0., 0.), pos(2., 0., 0.)], vec![1., 2.]);
    let b = raw_fluid(vec![pos(3., 0., 0.)], vec![3.]);

    a.extend(b);

    assert_eq!(a.len(), 3);
    assert_eq!(a.total_len(), 3);
    assert_eq!(a.position[2], pos(3., 0., 0.));
    assert_eq!(a.mass[2], 3.);
}

#[test]
fn extend_from_empty_self() {
    let mut fluid = F::new();
    let other = raw_fluid(vec![pos(1., 0., 0.)], vec![1.]);

    fluid.extend(other);

    assert_eq!(fluid.len(), 1);
    assert_eq!(fluid.position[0], pos(1., 0., 0.));
}

#[test]
fn swap_exchanges_every_field() {
    let mut fluid = raw_fluid(vec![pos(1., 0., 0.), pos(2., 0., 0.)], vec![1., 2.]);
    fluid.fluid_id = vec![10, 20];
    fluid.velocity = vec![vel(1., 1., 1.), vel(2., 2., 2.)];
    fluid.acceleration = vec![vel(9., 0., 0.), vel(8., 0., 0.)];
    fluid.volume = vec![0.1, 0.2];
    fluid.pressure = vec![100., 200.];
    fluid.integrator_position_slots = vec![vec![pos(1.1, 0., 0.), pos(2.1, 0., 0.)]];
    fluid.integrator_velocity_slots = vec![vec![vel(1.2, 0., 0.), vel(2.2, 0., 0.)]];
    fluid.solver_position_slots = vec![vec![pos(1.3, 0., 0.), pos(2.3, 0., 0.)]];
    fluid.solver_velocity_slots = vec![vec![vel(1.4, 0., 0.), vel(2.4, 0., 0.)]];

    fluid.swap(0, 1);

    assert_eq!(fluid.fluid_id, vec![20, 10]);
    assert_eq!(fluid.position, vec![pos(2., 0., 0.), pos(1., 0., 0.)]);
    assert_eq!(fluid.velocity, vec![vel(2., 2., 2.), vel(1., 1., 1.)]);
    assert_eq!(fluid.acceleration, vec![vel(8., 0., 0.), vel(9., 0., 0.)]);
    assert_eq!(fluid.mass, vec![2., 1.]);
    assert_eq!(fluid.volume, vec![0.2, 0.1]);
    assert_eq!(fluid.pressure, vec![200., 100.]);
    assert_eq!(fluid.integrator_position_slots[0], vec![pos(2.1, 0., 0.), pos(1.1, 0., 0.)]);
    assert_eq!(fluid.integrator_velocity_slots[0], vec![vel(2.2, 0., 0.), vel(1.2, 0., 0.)]);
    assert_eq!(fluid.solver_position_slots[0], vec![pos(2.3, 0., 0.), pos(1.3, 0., 0.)]);
    assert_eq!(fluid.solver_velocity_slots[0], vec![vel(2.4, 0., 0.), vel(1.4, 0., 0.)]);
}

#[test]
fn swap_same_index_is_noop() {
    let mut fluid = raw_fluid(vec![pos(1., 0., 0.)], vec![1.]);
    fluid.swap(0, 0);
    assert_eq!(fluid.position[0], pos(1., 0., 0.));
}

#[test]
fn disable_then_drop_then_extend() {
    let mut fluid = raw_fluid(vec![pos(1., 0., 0.), pos(2., 0., 0.), pos(3., 0., 0.)], vec![1., 2., 3.]);

    fluid.disable(1);
    fluid.drop_inactive();
    assert_eq!(fluid.len(), 2);
    assert_eq!(fluid.total_len(), 2);

    let more = raw_fluid(vec![pos(99., 0., 0.)], vec![99.]);
    fluid.extend(more);

    assert_eq!(fluid.len(), 3);
    assert_eq!(fluid.total_len(), 3);
    assert_eq!(fluid.position[2], pos(99., 0., 0.));
}

#[test]
fn disable_moves_last_active_into_the_gap() {
    let mut fluid = raw_fluid(vec![pos(1., 0., 0.), pos(2., 0., 0.), pos(3., 0., 0.)], vec![1., 2., 3.]);
    fluid.disable(0);
    assert_eq!(fluid.len(), 2);
    assert_eq!(fluid.total_len(), 3);
    assert_eq!(fluid.mass, vec![3., 2., 1.]);
    assert!(!fluid.is_empty());
}

#[test]
fn resize_slots_fills_fresh_slots_with_the_given_values() {
    let mut fluid = raw_fluid(vec![pos(1., 0., 0.), pos(2., 0., 0.)], vec![1., 2.]);
    fluid.velocity = vec![vel(1., 0., 0.), vel(2., 0., 0.)];
    fluid.resize_slots(2, 1, 1, 0, Point3::origin(), Vector3::zeros());
    assert_eq!(fluid.integrator_position_slots.len(), 2);
    assert_eq!(fluid.integrator_position_slots[1], vec![Point3::origin(); 2]);
    assert_eq!(fluid.integrator_velocity_slots[0], vec![Vector3::zeros(); 2]);
    assert_eq!(fluid.velocity, vec![vel(1., 0., 0.), vel(2., 0., 0.)]);
    assert_eq!(fluid.solver_position_slots.len(), 1);
    assert!(fluid.solver_velocity_slots.is_empty());
}

#[test]
fn take_integrator_prediction_moves_the_predicted_state_in() {
    let mut fluid = raw_fluid(vec![pos(1., 0., 0.)], vec![1.]);
    fluid.integrator_position_slots = vec![vec![pos(5., 0., 0.)]];
    fluid.integrator_velocity_slots = vec![vec![vel(6., 0., 0.)]];
    fluid.take_integrator_prediction();
    assert_eq!(fluid.position, vec![pos(5., 0., 0.)]);
    assert_eq!(fluid.velocity, vec![vel(6., 0., 0.)]);
    assert_eq!(fluid.integrator_position_slots, vec![vec![pos(1., 0., 0.)]]);
    assert_eq!(fluid.integrator_velocity_slots, vec![vec![Vector3::zeros()]]);
}

#[test]
fn checkpoint_round_trip_keeps_every_particle() {
    let mut fluid = raw_fluid(vec![pos(1., 0., 0.), pos(2., 0., 0.)], vec![1., 2.]);
    fluid.fluid_id = vec![7, 8];
    fluid.disable(0);
    let cp: FluidCheckpoint<Point3<f64>, Vector3<f64>, f64> = fluid.into_checkpoint();
    assert_eq!(cp.fluid_id, vec![8, 7]);
    assert_eq!(cp.position, vec![pos(2., 0., 0.), pos(1., 0., 0.)]);
    let back = cp.into_fluid(Vector3::zeros(), 0.);
    assert_eq!(back.len(), 2);
    assert_eq!(back.mass, vec![2., 1.]);
    assert_eq!(back.acceleration, vec![Vector3::zeros(); 2]);
    assert!(back.integrator_position_slots.is_empty());
}

#[test]
fn swapping_twice_restores_the_fluid() {
    let mut fluid = raw_fluid(vec![pos(1., 0., 0.), pos(2., 0., 0.), pos(3., 0., 0.)], vec![1., 2., 3.]);
    fluid.fluid_id = vec![7, 8, 9];
    fluid.integrator_position_slots = vec![vec![pos(4., 0., 0.), pos(5., 0., 0.), pos(6., 0., 0.)]];
    fluid.swap(0, 2);
    fluid.swap(0, 2);
    assert_eq!(fluid.fluid_id, vec![7, 8, 9]);
    assert_eq!(fluid.mass, vec![1., 2., 3.]);
    assert_eq!(fluid.integrator_position_slots[0], vec![pos(4., 0., 0.), pos(5., 0., 0.), pos(6., 0., 0.)]);
}

#[test]
fn add_samples_appends_active_samples_at_rest() {
    let mut fluid = F::new();
    fluid.add_samples(vec![pos(1., 0., 0.), pos(2., 0., 0.)], 4, 0.5, Vector3::zeros(), 0.);
    fluid.add_samples(vec![pos(3., 0., 0.)], 7, 0.25, Vector3::zeros(), 0.);
    assert_eq!(fluid.len(), 3);
    assert_eq!(fluid.fluid_id, vec![4, 4, 7]);
    assert_eq!(fluid.mass, vec![0.5, 0.5, 0.25]);
    assert_eq!(fluid.velocity, vec![Vector3::zeros(); 3]);
    assert_eq!(fluid.position[2], pos(3., 0., 0.));
}

#[test]
fn active_particles_are_grouped_by_ascending_fluid_id() {
    let mut fluid = raw_fluid(
        vec![pos(1., 0., 0.), pos(2., 0., 0.), pos(3., 0., 0.), pos(4., 0., 0.)],
        vec![1., 2., 3., 4.],
    );
    fluid.fluid_id = vec![5, 2, 5, 2];
    fluid.disable(1);
    // active: ids [5, 2, 5] at positions 1, 4, 3
    let groups = fluid.group_active_by_fluid_id();
    assert_eq!(groups.len(), 2);
    assert_eq!(groups[0].fluid_id, 2);
    assert_eq!(groups[0].positions, vec![pos(4., 0., 0.)]);
    assert_eq!(groups[0].mass, 4.);
    assert_eq!(groups[1].fluid_id, 5);
    assert_eq!(groups[1].positions, vec![pos(1., 0., 0.), pos(3., 0., 0.)]);
    assert_eq!(groups[1].mass, 1.);
    assert!(F::new().group_active_by_fluid_id().is_empty());
}

#[test]
fn empty_surfaces_are_left_out_in_order() {
    let surfaces = vec![(2u32, "a"), (5u32, ""), (7u32, "c")];
    let empty = vec![false, true, false];
    assert_eq!(keep_nonempty_surfaces(surfaces, &empty), vec![(2u32, "a"), (7u32, "c")]);
    let none: Vec<(u32, &str)> = Vec::new();
    assert!(keep_nonempty_surfaces(none, &Vec::new()).is_empty());
    assert!(keep_nonempty_surfaces(vec![(1u32, "")], &vec![true]).is_empty());
}
