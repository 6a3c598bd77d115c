use nalgebra::{Point3, Vector3};
use sci_phi::sph::boundary_handling::volume_map_boundary::{NeighborList, NeighborListBuilder};

type List = NeighborList<Point3<f64>, Vector3<f64>, f64>;
type Builder = NeighborListBuilder<Point3<f64>, Vector3<f64>, f64>;

fn pos(x: f64, y: f64, z: f64) -> Point3<f64> {
    Point3::new(x, y, z)
}

fn vel(x: f64, y: f64, z: f64) -> Vector3<f64> {
    Vector3::new(x, y, z)
}

/// Fills all four columns of sample `id`.
fn set_all(
    b: &mut Builder,
    id: usize,
    positions: Vec<Point3<f64>>,
    velocities: Vec<Vector3<f64>>,
    volumes: Vec<f64>,
    indices: Vec<usize>,
) {
    b.set_positions(id, positions);
    b.set_velocities(id, velocities);
    b.set_volumes(id, volumes);
    b.set_indices(id, indices);
}

#[test]
fn default_is_empty() {
    let nl = List::default();
    assert_eq!(nl.len(), 0);
}

#[test]
fn rebuild_from_default_grows_correctly() {
    let mut nl = List::default();
    let mut b = Builder::new(2);
    set_all(&mut b, 0, vec![pos(1., 0., 0.)], vec![vel(0.1, 0., 0.)], vec![0.5], vec![0]);
    nl.rebuild(0, b);

    assert_eq!(nl.len(), 1);
    assert_eq!(nl.get_neighbors(0), &[0]);
    assert_eq!(*nl.pos_now(0), pos(1., 0., 0.));
    assert_eq!(*nl.vel_now(0), vel(0.1, 0., 0.));
    assert_eq!(*nl.volume(0), 0.5);
    assert_eq!(nl.get_neighbors(1), &[] as &[usize]);
}

#[test]
fn volume_map_boundary_flatten_empty_list() {
    let mut nl = List::default();
    nl.rebuild(0, Builder::new(3));

    assert_eq!(nl.len(), 0);
    for i in 0..3 {
        assert_eq!(nl.get_neighbors(i), &[] as &[usize]);
    }
}

#[test]
fn rebuild_single_particle_with_neighbor() {
    let mut nl = List::default();
    let mut b = Builder::new(1);
    set_all(&mut b, 0, vec![pos(2., 3., 4.)], vec![vel(0.5, 0.6, 0.7)], vec![1.25], vec![0]);
    nl.rebuild(0, b);

    assert_eq!(nl.get_neighbors(0), &[0]);
    assert_eq!(*nl.pos_now(0), pos(2., 3., 4.));
    assert_eq!(*nl.vel_now(0), vel(0.5, 0.6, 0.7));
    assert_eq!(*nl.volume(0), 1.25);
}

#[test]
fn rebuild_multiple_particles_preserves_order() {
    let mut nl = List::default();
    let mut b = Builder::new(2);
    set_all(
        &mut b,
        0,
        vec![pos(1., 0., 0.), pos(2., 0., 0.)],
        vec![vel(0.1, 0., 0.), vel(0.2, 0., 0.)],
        vec![0.1, 0.2],
        vec![0, 1],
    );
    set_all(&mut b, 1, vec![pos(9., 0., 0.)], vec![vel(0.9, 0., 0.)], vec![0.9], vec![0]);
    nl.rebuild(0, b);

    assert_eq!(*nl.pos_now(0), pos(1., 0., 0.));
    assert_eq!(*nl.pos_now(1), pos(2., 0., 0.));
    assert_eq!(*nl.pos_now(2), pos(9., 0., 0.));
    assert_eq!(*nl.volume(2), 0.9);
}

#[test]
fn flatten_applies_global_offset_uniformly() {
    let global_offset = 100;
    let mut nl = List::default();
    let mut b = Builder::new(1);
    set_all(&mut b, 0, vec![pos(5., 5., 5.)], vec![vel(1., 1., 1.)], vec![0.42], vec![0]);
    nl.rebuild(global_offset, b);

    let stored_id = nl.get_neighbors(0)[0];
    assert_eq!(stored_id, global_offset);

    let local_id = stored_id - global_offset;
    assert_eq!(*nl.pos_now(local_id), pos(5., 5., 5.));
    assert_eq!(*nl.vel_now(local_id), vel(1., 1., 1.));
    assert_eq!(*nl.volume(local_id), 0.42);
}

#[test]
fn flatten_accumulates_offset_across_particles() {
    let mut nl = List::default();
    let mut b = Builder::new(2);
    set_all(
        &mut b,
        0,
        vec![pos(1., 0., 0.), pos(2., 0., 0.)],
        vec![vel(0., 0., 0.), vel(0., 0., 0.)],
        vec![0., 0.],
        vec![0, 1],
    );
    set_all(&mut b, 1, vec![pos(9., 9., 9.)], vec![vel(0., 0., 0.)], vec![0.], vec![0]);
    nl.rebuild(0, b);

    assert_eq!(nl.get_neighbors(0), &[0, 1]);
    assert_eq!(nl.get_neighbors(1), &[2]);
    assert_eq!(*nl.pos_now(2), pos(9., 9., 9.));
}

#[test]
fn volume_map_boundary_resize_grows() {
    let mut nl = List::default();
    let mut b = Builder::new(2);
    b.set_positions(0, vec![pos(1., 0., 0.)]);
    b.set_indices(0, vec![0]);
    nl.rebuild(0, b);

    nl.resize(5);

    assert_eq!(nl.num_samples(), 5);
    assert_eq!(*nl.pending_indices_of(0), vec![0]);
    for i in 2..5 {
        assert!(nl.pending_indices_of(i).is_empty());
        assert!(nl.pending_positions_of(i).is_empty());
    }
}

#[test]
fn volume_map_boundary_resize_shrinks() {
    let mut nl = List::default();
    let mut b = Builder::new(5);
    b.set_positions(0, vec![pos(1., 0., 0.)]);
    b.set_indices(0, vec![0]);
    nl.rebuild(0, b);

    nl.resize(2);

    assert_eq!(nl.num_samples(), 2);
    assert_eq!(*nl.pending_positions_of(0), vec![pos(1., 0., 0.)]);
}

#[test]
fn clear_resets_all_unflattened_data() {
    let mut nl = List::default();
    let mut b = Builder::new(2);
    set_all(&mut b, 0, vec![pos(1., 0., 0.)], vec![vel(1., 0., 0.)], vec![1.], vec![0]);
    nl.rebuild(0, b);

    nl.clear();

    for i in 0..nl.num_samples() {
        assert!(nl.pending_positions_of(i).is_empty());
        assert!(nl.pending_velocities_of(i).is_empty());
        assert!(nl.pending_volumes_of(i).is_empty());
        assert!(nl.pending_indices_of(i).is_empty());
    }
}

#[test]
fn rebuild_shrink_then_grow_has_no_stale_data() {
    let mut nl = List::default();
    let mut b = Builder::new(3);
    for i in 0..3 {
        b.set_positions(i, vec![pos(i as f64, 0., 0.)]);
        b.set_indices(i, vec![0]);
    }
    nl.rebuild(0, b);

    let mut b = Builder::new(1);
    b.set_positions(0, vec![pos(99., 0., 0.)]);
    b.set_indices(0, vec![0]);
    nl.rebuild(0, b);

    let mut b = Builder::new(3);
    b.set_positions(0, vec![pos(42., 0., 0.)]);
    b.set_indices(0, vec![0]);
    nl.rebuild(0, b);

    assert_eq!(nl.get_neighbors(0), &[0]);
    assert_eq!(*nl.pos_now(0), pos(42., 0., 0.));
    for i in 1..3 {
        assert_eq!(nl.get_neighbors(i), &[] as &[usize], "slot {i} should be empty, not stale");
    }
}

#[test]
fn rebuild_fill_noop_clears_previous_data() {
    let mut nl = List::default();
    let mut b = Builder::new(2);
    b.set_positions(0, vec![pos(1., 0., 0.)]);
    b.set_indices(0, vec![0]);
    nl.rebuild(0, b);

    nl.rebuild(0, Builder::new(2));

    assert_eq!(nl.get_neighbors(0), &[] as &[usize]);
    assert_eq!(nl.get_neighbors(1), &[] as &[usize]);
    assert_eq!(nl.len(), 0);
}

#[test]
fn rebuild_called_twice_replaces_data() {
    let mut nl = List::default();
    let mut b = Builder::new(1);
    set_all(&mut b, 0, vec![pos(1., 0., 0.)], vec![vel(1., 0., 0.)], vec![1.], vec![0]);
    nl.rebuild(0, b);

    let mut b = Builder::new(1);
    set_all(
        &mut b,
        0,
        vec![pos(2., 0., 0.), pos(3., 0., 0.)],
        vec![vel(2., 0., 0.), vel(3., 0., 0.)],
        vec![2., 3.],
        vec![0, 1],
    );
    nl.rebuild(0, b);

    assert_eq!(nl.get_neighbors(0), &[0, 1]);
    assert_eq!(*nl.pos_now(0), pos(2., 0., 0.));
    assert_eq!(*nl.pos_now(1), pos(3., 0., 0.));
}

#[test]
fn volume_map_boundary_get_data_length_consistency() {
    let mut nl = List::default();
    let mut b = Builder::new(4);
    set_all(
        &mut b,
        0,
        vec![pos(1., 0., 0.), pos(2., 0., 0.), pos(3., 0., 0.)],
        vec![vel(0., 0., 0.); 3],
        vec![0.; 3],
        vec![0, 1, 2],
    );
    set_all(&mut b, 2, vec![pos(4., 0., 0.); 4], vec![vel(0., 0., 0.); 4], vec![0.; 4], vec![0, 1, 2, 3]);
    nl.rebuild(0, b);

    let total: usize = (0..4).map(|i| nl.get_neighbors(i).len()).sum();
    assert_eq!(total, nl.len());
    assert_eq!(total, nl.velocities_len());
    assert_eq!(total, nl.volumes_len());
    assert_eq!(total, nl.indices_len());
    assert_eq!(nl.offsets_len(), 5);
}

#[test]
fn pos_now_vel_now_volume_support_range_indexing() {
    let mut nl = List::default();
    let mut b = Builder::new(1);
    set_all(
        &mut b,
        0,
        vec![pos(1., 0., 0.), pos(2., 0., 0.), pos(3., 0., 0.)],
        vec![vel(1., 0., 0.), vel(2., 0., 0.), vel(3., 0., 0.)],
        vec![1., 2., 3.],
        vec![0, 1, 2],
    );
    nl.rebuild(0, b);

    assert_eq!(&nl.positions()[0..2], &[pos(1., 0., 0.), pos(2., 0., 0.)]);
    assert_eq!(&nl.velocities()[1..3], &[vel(2., 0., 0.), vel(3., 0., 0.)]);
    assert_eq!(&nl.volumes()[..], &[1., 2., 3.]);
}

#[test]
fn volume_map_boundary_large_neighbor_list() {
    let n = 1000;
    let mut nl = List::default();
    let mut b = Builder::new(n);
    for i in 0..n {
        set_all(&mut b, i, vec![pos(i as f64, 0., 0.)], vec![vel(0., 0., 0.)], vec![1.0], vec![0]);
    }
    nl.rebuild(0, b);

    assert_eq!(nl.len(), n);
    for i in 0..n {
        assert_eq!(nl.get_neighbors(i), &[i]);
        assert_eq!(*nl.pos_now(i), pos(i as f64, 0., 0.));
    }
}

#[test]
fn flatten_keeps_pending_data_and_can_be_repeated() {
    let mut nl = List::default();
    let mut b = Builder::new(2);
    set_all(&mut b, 1, vec![pos(7., 0., 0.)], vec![vel(0., 0., 0.)], vec![3.], vec![0]);
    nl.rebuild(10, b);
    assert_eq!(nl.get_neighbors(1), &[10]);
    nl.flatten(20);
    assert_eq!(nl.get_neighbors(0), &[] as &[usize]);
    assert_eq!(nl.get_neighbors(1), &[20]);
    assert_eq!(nl.len(), 1);
    assert_eq!(*nl.pending_volumes_of(1), vec![3.]);
}
