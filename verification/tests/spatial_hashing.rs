use sci_phi::neighbor_search::spatial_hashing::{hash, map_int_to_uint, CellTable, GridCell};
use sci_phi::neighbor_search::{SpatialHashing, UniformGrid};

// ─── Helper functions ───────────────────────────────────────────────

fn pos(x: f64, y: f64, z: f64) -> [f64; 3] {
    [x, y, z]
}

/// Grid cell of a position, as the neighbor search computes it.
fn cell_of(p: &[f64; 3], cell_size: f64) -> GridCell {
    GridCell {
        x: (p[0] / cell_size).floor() as i32,
        y: (p[1] / cell_size).floor() as i32,
        z: (p[2] / cell_size).floor() as i32,
    }
}

fn cells_of(positions: &[[f64; 3]], cell_size: f64) -> Vec<GridCell> {
    positions.iter().map(|p| cell_of(p, cell_size)).collect()
}

fn distance(a: &[f64; 3], b: &[f64; 3]) -> f64 {
    ((a[0] - b[0]).powi(2) + (a[1] - b[1]).powi(2) + (a[2] - b[2]).powi(2)).sqrt()
}

/// Samples in range of `position`: candidates of the cells around it,
/// filtered by distance.
fn particles_in_range(
    table: &CellTable,
    position: &[f64; 3],
    other_positions: &[[f64; 3]],
    cell_size: f64,
    range: f64,
) -> Vec<usize> {
    let reach = (range / cell_size).ceil() as i32;
    table
        .candidates_in_range(cell_of(position, cell_size), reach)
        .into_iter()
        .filter(|&n| distance(&other_positions[n], position) < range)
        .collect()
}

// ─── map_int_to_uint tests ──────────────────────────────────────────

#[test]
fn map_int_to_uint_positive() {
    assert_eq!(map_int_to_uint(0), 0);
    assert_eq!(map_int_to_uint(1), 2);
    assert_eq!(map_int_to_uint(5), 10);
}

#[test]
fn map_int_to_uint_negative() {
    assert_eq!(map_int_to_uint(-1), 3);
    assert_eq!(map_int_to_uint(-5), 11);
}

#[test]
fn map_int_to_uint_is_injective() {
    // No two different inputs should map to the same output
    let values: Vec<u64> = (-100..=100).map(map_int_to_uint).collect();
    let mut unique = values.clone();
    unique.sort();
    unique.dedup();
    assert_eq!(values.len(), unique.len());
}

#[test]
fn map_int_to_uint_extremes() {
    assert_eq!(map_int_to_uint(i32::MAX), 2 * (i32::MAX as u64));
    assert_eq!(map_int_to_uint(i32::MIN), 2 * (1u64 << 31) + 1);
}

// ─── hash tests ─────────────────────────────────────────────────────

#[test]
fn hash_same_input_same_output() {
    let h1 = hash(1, 2, 3);
    let h2 = hash(1, 2, 3);
    assert_eq!(h1, h2);
}

#[test]
fn hash_different_input_likely_different_output() {
    let h1 = hash(0, 0, 0);
    let h2 = hash(1, 0, 0);
    let h3 = hash(0, 1, 0);
    let h4 = hash(0, 0, 1);
    // While collisions are possible, adjacent cells should not collide
    assert_ne!(h1, h2);
    assert_ne!(h1, h3);
    assert_ne!(h1, h4);
}

#[test]
fn hash_handles_negatives() {
    // Should not panic
    let _ = hash(-10, -20, -30);
    let _ = hash(-1, 0, 1);
}

#[test]
fn hash_exact_value() {
    // (2 * 73856093) ^ (3 * 19349663) ^ (4 * 83492791)
    assert_eq!(hash(1, -1, 2), 147712186 ^ 58048989 ^ 333971164);
    assert_eq!(hash(i32::MIN, i32::MIN, i32::MIN), {
        let u = 2 * (1u64 << 31) + 1;
        (u * 73856093) ^ (u * 19349663) ^ (u * 83492791)
    });
}

// ─── populate tests ─────────────────────────────────────────────────

#[test]
fn populate_empty_positions() {
    let mut map = CellTable::new();
    map.populate(&cells_of(&[], 1.0));
    assert!(map.is_empty());
}

#[test]
fn populate_single_particle() {
    let mut map = CellTable::new();
    let positions = vec![pos(0.5, 0.5, 0.5)];
    map.populate(&cells_of(&positions, 1.0));

    let hash = hash(0, 0, 0);
    assert_eq!(map.get(hash).unwrap(), &vec![0]);
}

#[test]
fn populate_two_particles_same_cell() {
    let mut map = CellTable::new();
    let positions = vec![pos(0.1, 0.1, 0.1), pos(0.9, 0.9, 0.9)];
    map.populate(&cells_of(&positions, 1.0));

    let hash = hash(0, 0, 0);
    let cell_contents = map.get(hash).unwrap();
    assert!(cell_contents.contains(&0));
    assert!(cell_contents.contains(&1));
}

#[test]
fn populate_two_particles_different_cells() {
    let mut map = CellTable::new();
    let positions = vec![pos(0.5, 0.5, 0.5), pos(5.5, 5.5, 5.5)];
    map.populate(&cells_of(&positions, 1.0));

    let hash0 = hash(0, 0, 0);
    let hash5 = hash(5, 5, 5);
    assert_eq!(map.get(hash0).unwrap(), &vec![0]);
    assert_eq!(map.get(hash5).unwrap(), &vec![1]);
}

// ─── get_particles_in_range tests ───────────────────────────────────

#[test]
fn particles_in_range_finds_close_neighbor() {
    let mut map = CellTable::new();
    let positions = vec![pos(0.0, 0.0, 0.0), pos(0.5, 0.0, 0.0)];
    map.populate(&cells_of(&positions, 1.0));

    let result = particles_in_range(&map, &positions[0], &positions, 1.0, 1.0);
    assert!(result.contains(&0)); // self
    assert!(result.contains(&1)); // close neighbor
}

#[test]
fn particles_in_range_excludes_far_neighbor() {
    let mut map = CellTable::new();
    let positions = vec![pos(0.0, 0.0, 0.0), pos(10.0, 0.0, 0.0)];
    map.populate(&cells_of(&positions, 1.0));

    let result = particles_in_range(&map, &positions[0], &positions, 1.0, 2.0);
    assert!(result.contains(&0)); // self
    assert!(!result.contains(&1)); // too far
}

#[test]
fn particles_in_range_excludes_at_exact_range() {
    let mut map = CellTable::new();
    // distance = exactly 2.0, range < 2.0 uses strict less-than
    let positions = vec![pos(0.0, 0.0, 0.0), pos(2.0, 0.0, 0.0)];
    map.populate(&cells_of(&positions, 1.0));

    let result = particles_in_range(&map, &positions[0], &positions, 1.0, 2.0);
    assert!(!result.contains(&1)); // exactly at range → excluded (strict <)
}

#[test]
fn particles_in_range_negative_positions() {
    let mut map = CellTable::new();
    let positions = vec![pos(-1.0, -1.0, -1.0), pos(-1.5, -1.0, -1.0)];
    map.populate(&cells_of(&positions, 1.0));

    let result = particles_in_range(&map, &positions[0], &positions, 1.0, 1.0);
    assert!(result.contains(&1));
}

// ─── candidate gathering ────────────────────────────────────────────

#[test]
fn candidates_visit_cells_in_lexicographic_order() {
    let mut map = CellTable::new();
    let cells = vec![
        GridCell { x: 1, y: 0, z: 0 },
        GridCell { x: -1, y: 0, z: 0 },
        GridCell { x: 0, y: 0, z: 1 },
        GridCell { x: 0, y: 0, z: 0 },
        GridCell { x: 5, y: 0, z: 0 },
    ];
    map.populate(&cells);
    let found = map.candidates_in_range(GridCell { x: 0, y: 0, z: 0 }, 1);
    // dx = -1 first, then dx = 0 (dz = 0 before dz = 1), then dx = 1
    assert_eq!(found, vec![1, 3, 2, 0]);
}

#[test]
fn candidates_with_negative_reach_are_empty() {
    let mut map = CellTable::new();
    map.populate(&[GridCell { x: 0, y: 0, z: 0 }]);
    assert!(map.candidates_in_range(GridCell { x: 0, y: 0, z: 0 }, -1).is_empty());
    assert_eq!(map.candidates_in_range(GridCell { x: 0, y: 0, z: 0 }, 0), vec![0]);
}

#[test]
fn candidates_complete_for_every_sample_in_reach() {
    // every sample whose cell lies within the reach is found
    let mut map = CellTable::new();
    let mut cells = Vec::new();
    for x in -3..=3 {
        for y in -3..=3 {
            cells.push(GridCell { x, y, z: x - y });
        }
    }
    map.populate(&cells);
    let c = GridCell { x: 0, y: 1, z: 0 };
    let found = map.candidates_in_range(c, 2);
    for (i, d) in cells.iter().enumerate() {
        let near = (d.x - c.x).abs() <= 2 && (d.y - c.y).abs() <= 2 && (d.z - c.z).abs() <= 2;
        if near {
            assert!(found.contains(&i), "sample {i} missed");
        }
    }
}

#[test]
fn spatial_hashing_keeps_fluid_and_boundary_apart() {
    let mut sh = SpatialHashing::new(0.5f64);
    let fluid = vec![GridCell { x: 0, y: 0, z: 0 }, GridCell { x: 3, y: 0, z: 0 }];
    let boundary = vec![GridCell { x: 0, y: 0, z: 1 }];
    sh.rebuild_tables(&fluid, &boundary);
    assert_eq!(*sh.cell_size(), 0.5);
    assert_eq!(sh.fluid_candidates(GridCell { x: 0, y: 0, z: 0 }, 1), vec![0]);
    assert_eq!(sh.boundary_candidates(GridCell { x: 0, y: 0, z: 0 }, 1), vec![0]);
    sh.rebuild_tables(&[], &[]);
    assert!(sh.fluid_candidates(GridCell { x: 0, y: 0, z: 0 }, 1).is_empty());
}

#[test]
fn uniform_grid_files_fluid_and_boundary_together() {
    let mut grid = UniformGrid::new(1.0f64);
    grid.populate(&[GridCell { x: 0, y: 0, z: 0 }]);
    grid.populate_boundary_particles(&[GridCell { x: 2, y: 2, z: 2 }, GridCell { x: 4, y: 0, z: 0 }]);
    // fluid sample 0 and boundary sample 0 are both within two cells
    assert_eq!(grid.get_candidates_in_kernel_range(GridCell { x: 1, y: 1, z: 1 }), vec![0, 0]);
    grid.clear();
    assert!(grid.get_candidates_in_kernel_range(GridCell { x: 1, y: 1, z: 1 }).is_empty());
}
