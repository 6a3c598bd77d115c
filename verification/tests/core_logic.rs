use nalgebra::{Point3, Vector3};
use sci_phi::fluid::{Fluid as StepFluid, Len as StepLen};
use sci_phi::integration_schemes::TakePredicted as StepTakePredicted;
use sci_phi::measurement::{decimal_string, numbered_file_name};
use sci_phi::neighbor_search::octree::{compact_bits, deinterleave_morton3d, expand_bits, interleave_morton3d, Octree};
use sci_phi::neighbor_search::spatial_hashing::block_within_bounds;
use sci_phi::neighbor_search::{GridCell, NeighborList};
use sci_phi::render_info::{max_id, BoundaryMeshColoring, BoundarySampleColoring};
use sci_phi::sph::boundary_handling::volume_map_boundary::{BoundaryNeighborLists, PerParticleNeighbors};
use sci_phi::sph::boundary_handling::RequestMode;
use sci_phi::sph::fluid::Fluid;
use sci_phi::sph::integration_schemes::TakePredicted;

fn pos(x: f64, y: f64, z: f64) -> Point3<f64> {
    Point3::new(x, y, z)
}

fn vel(x: f64, y: f64, z: f64) -> Vector3<f64> {
    Vector3::new(x, y, z)
}

#[test]
fn morton_code_interleaves_and_splits_back() {
    assert_eq!(expand_bits(0b111), 0b1001001);
    assert_eq!(compact_bits(0b1001001), 0b111);
    assert_eq!(interleave_morton3d(1, 0, 0), 1);
    assert_eq!(interleave_morton3d(0, 1, 0), 2);
    assert_eq!(interleave_morton3d(0, 0, 1), 4);
    assert_eq!(interleave_morton3d(3, 5, 6), 0b110101011);
    for &(x, y, z) in &[(0u64, 0u64, 0u64), (1, 2, 3), (0x1fffff, 0, 17), (123456, 654321, 0x1fffff)] {
        assert_eq!(deinterleave_morton3d(interleave_morton3d(x, y, z)), (x, y, z));
    }
    // only the low 21 bits of each coordinate take part
    assert_eq!(interleave_morton3d(1 << 21, 0, 0), 0);
}

#[test]
fn file_names_are_numbered() {
    assert_eq!(decimal_string(0), "0");
    assert_eq!(decimal_string(65535), "65535");
    assert_eq!(numbered_file_name("density", 3, "csv"), "density_#3.csv");
    assert_eq!(numbered_file_name("", 10, ""), "_#10.");
}

#[test]
fn largest_boundary_id_is_found() {
    assert_eq!(max_id(&[]), 0);
    assert_eq!(max_id(&[3, 9, 2]), 9);
    match BoundaryMeshColoring::boundary_id(vec![4, 1]) {
        BoundaryMeshColoring::BoundaryId { ids, max_id } => {
            assert_eq!(ids, vec![4, 1]);
            assert_eq!(max_id, 4);
        }
        _ => panic!("expected a coloring by boundary id"),
    }
    match BoundarySampleColoring::boundary_id(vec![]) {
        BoundarySampleColoring::BoundaryId { ids, max_id } => {
            assert!(ids.is_empty());
            assert_eq!(max_id, 0);
        }
        _ => panic!("expected a coloring by boundary id"),
    }
}

#[test]
fn take_predicted_rotates_previous_current_and_predicted_state() {
    let mut f = StepFluid::from_fields(
        vec![0],
        vec![pos(1., 0., 0.)],
        vec![pos(0., 0., 0.)],
        vec![pos(2., 0., 0.)],
        vec![vel(1., 0., 0.)],
        vec![vel(0., 0., 0.)],
        vec![vel(2., 0., 0.)],
        vec![vel(0., 0., 0.)],
        vec![1.],
        vec![1.],
        vec![0.],
    );
    StepTakePredicted.integrate(&mut f);
    assert_eq!(f.position, vec![pos(2., 0., 0.)]);
    assert_eq!(f.position_prev, vec![pos(1., 0., 0.)]);
    assert_eq!(f.position_pred, vec![pos(0., 0., 0.)]);
    assert_eq!(f.velocity, vec![vel(2., 0., 0.)]);
    assert_eq!(f.velocity_prev, vec![vel(1., 0., 0.)]);
    assert_eq!(f.len(), 1);
    // three rotations give the starting state back
    f.rotate_position();
    f.rotate_position();
    assert_eq!(f.position, vec![pos(1., 0., 0.)]);
}

#[test]
fn take_predicted_commits_the_integrator_slot() {
    let mut f: Fluid<Point3<f64>, Vector3<f64>, f64> = Fluid::from_fields(
        vec![0],
        vec![pos(1., 0., 0.)],
        vec![vel(1., 0., 0.)],
        vec![vel(0., 0., 0.)],
        vec![1.],
        vec![1.],
        vec![0.],
    );
    f.resize_slots(
        TakePredicted::POSITION_SLOTS,
        TakePredicted::VELOCITY_SLOTS,
        0,
        0,
        pos(3., 0., 0.),
        vel(4., 0., 0.),
    );
    TakePredicted.integrate(&mut f);
    assert_eq!(f.position, vec![pos(3., 0., 0.)]);
    assert_eq!(f.velocity, vec![vel(4., 0., 0.)]);
    assert_eq!(f.integrator_position_slots, vec![vec![pos(1., 0., 0.)]]);
}

fn result(n_normal: usize, n_visc: usize, base: f64) -> PerParticleNeighbors<Point3<f64>, Vector3<f64>, f64> {
    PerParticleNeighbors {
        pos: (0..n_normal).map(|k| pos(base + k as f64, 0., 0.)).collect(),
        vel: vec![vel(0., 0., 0.); n_normal],
        vol: vec![base; n_normal],
        v_pos: (0..n_visc).map(|k| pos(base, k as f64, 0.)).collect(),
        v_vel: vec![vel(0., 1., 0.); n_visc],
        v_vol: vec![base * 2.; n_visc],
    }
}

#[test]
fn written_back_lists_share_one_index_space() {
    let mut lists = BoundaryNeighborLists::new();
    let results = vec![result(1, 4, 10.), result(2, 0, 20.)];
    lists.write_back(3, &results);

    assert_eq!(lists.boundary_neighbor_list.len(), 3);
    assert_eq!(lists.get_neighbors(0, RequestMode::Normal), &[0]);
    assert_eq!(lists.get_neighbors(1, RequestMode::Normal), &[1, 2]);
    assert_eq!(lists.get_neighbors(2, RequestMode::Normal), &[] as &[usize]);
    // the viscosity list's indices continue after the three pressure entries
    assert_eq!(lists.get_neighbors(0, RequestMode::ViscosityAcceleration), &[3, 4, 5, 6]);
    assert_eq!(lists.get_neighbors(1, RequestMode::ViscosityAcceleration), &[] as &[usize]);

    assert_eq!(*lists.position(2), pos(21., 0., 0.));
    assert_eq!(*lists.volume(1), 20.);
    assert_eq!(*lists.position(5), pos(10., 2., 0.));
    assert_eq!(*lists.velocity(6), vel(0., 1., 0.));
    assert_eq!(*lists.volume(3), 20.);
}

#[test]
fn incomplete_groups_of_viscosity_points_are_left_out() {
    let mut lists = BoundaryNeighborLists::new();
    lists.write_back(1, &vec![result(0, 6, 1.)]);
    assert_eq!(lists.get_neighbors(0, RequestMode::ViscosityAcceleration), &[0, 1, 2, 3]);
    assert_eq!(lists.boundary_neighbor_list_viscosity.len(), 4);
    assert_eq!(RequestMode::default(), RequestMode::Normal);
}

#[test]
fn octree_prepares_empty_neighbor_lists() {
    let mut tree = Octree::new(0.75f64);
    assert_eq!(*tree.cell_size(), 0.75);
    let mut fluid = NeighborList::new(1);
    fluid.set_neighbors(0, vec![0]);
    let mut boundary = NeighborList::default();
    tree.find_neighbors(3, &mut fluid, &mut boundary);
    assert_eq!(fluid.num_samples(), 3);
    assert_eq!(boundary.num_samples(), 3);
    assert!(fluid.pending_neighbors(0).is_empty());
    assert_eq!(fluid.indices_len(), 0);
}

#[test]
fn blocks_near_the_end_of_the_cell_range_are_refused() {
    assert!(block_within_bounds(GridCell { x: 0, y: 0, z: 0 }, 2));
    assert!(block_within_bounds(GridCell { x: i32::MAX - 2, y: 0, z: i32::MIN + 2 }, 2));
    assert!(!block_within_bounds(GridCell { x: i32::MAX - 1, y: 0, z: 0 }, 2));
    assert!(!block_within_bounds(GridCell { x: 0, y: i32::MIN, z: 0 }, 1));
}

#[test]
fn boundary_index_offset_is_consistent() {
    // one fluid particle near a plane boundary at x = 0: its mirrored point
    // and the four points around it for the viscosity terms
    let d = 0.25;
    let on_boundary = pos(-0.1, 0., 0.);
    let found = PerParticleNeighbors {
        pos: vec![on_boundary],
        vel: vec![vel(0., 0., 0.)],
        vol: vec![1.0],
        v_pos: vec![
            on_boundary + vel(0., d, 0.),
            on_boundary - vel(0., d, 0.),
            on_boundary + vel(0., 0., d),
            on_boundary - vel(0., 0., d),
        ],
        v_vel: vec![vel(0., 0., 0.); 4],
        v_vol: vec![0.25; 4],
    };
    let positions = vec![pos(0.1, 0.0, 0.0)];
    let mut boundary = BoundaryNeighborLists::new();
    boundary.write_back(positions.len(), &vec![found]);

    let n_normal = boundary.boundary_neighbor_list.len();
    let n_visc = boundary.boundary_neighbor_list_viscosity.len();
    assert!(n_normal > 0, "expected at least one normal neighbor sample");
    assert!(n_visc > 0, "expected at least one viscosity neighbor sample");

    for id in 0..positions.len() {
        for &nb in boundary.get_neighbors(id, RequestMode::Normal) {
            assert!(nb < n_normal, "Normal index {nb} >= {n_normal}");
            let _ = boundary.volume(nb);
            let _ = boundary.position(nb);
        }
        for &nb in boundary.get_neighbors(id, RequestMode::ViscosityAcceleration) {
            assert!(
                (n_normal..n_normal + n_visc).contains(&nb),
                "Viscosity index {nb} not in [{n_normal}, {})",
                n_normal + n_visc
            );
            let _ = boundary.volume(nb);
            let _ = boundary.position(nb);
        }
    }
}

#[test]
fn samples_added_to_the_fluid_start_at_rest() {
    let mut f = StepFluid::new();
    f.add_samples(vec![pos(1., 2., 3.)], 9, 2.0, Point3::origin(), vel(0., 0., 0.), 0.);
    assert_eq!(f.len(), 1);
    assert_eq!(f.fluid_id, vec![9]);
    assert_eq!(f.position_prev, vec![Point3::origin()]);
    assert_eq!(f.mass, vec![2.0]);
    assert_eq!(f.pressure, vec![0.]);
}
