use sci_phi::neighbor_search::NeighborList;

#[test]
fn new_creates_empty_neighbor_list() {
    let nl = NeighborList::new(5);
    assert_eq!(nl.num_samples(), 5);
    assert!((0..5).all(|i| nl.pending_neighbors(i).is_empty()));
}

#[test]
fn mod_flatten_empty_list() {
    let mut nl = NeighborList::new(3);
    nl.flatten();
    assert_eq!(nl.offsets_len(), 4); // num_particles + 1
    assert_eq!(nl.indices_len(), 0);
    for i in 0..3 {
        assert_eq!(nl.get_neighbors(i), &[] as &[usize]);
    }
}

#[test]
fn flatten_single_particle_no_neighbors() {
    let mut nl = NeighborList::new(1);
    nl.flatten();
    assert_eq!(nl.get_neighbors(0), &[] as &[usize]);
}

#[test]
fn flatten_single_particle_with_neighbors() {
    let mut nl = NeighborList::new(1);
    nl.set_neighbors(0, vec![1, 2, 3]);
    nl.flatten();
    assert_eq!(nl.get_neighbors(0), &[1, 2, 3]);
}

#[test]
fn flatten_multiple_particles() {
    let mut nl = NeighborList::new(4);
    nl.set_neighbors(0, vec![1, 2]);
    nl.set_neighbors(1, vec![0, 2, 3]);
    nl.set_neighbors(2, vec![]);
    nl.set_neighbors(3, vec![0]);
    nl.flatten();

    assert_eq!(nl.get_neighbors(0), &[1, 2]);
    assert_eq!(nl.get_neighbors(1), &[0, 2, 3]);
    assert_eq!(nl.get_neighbors(2), &[] as &[usize]);
    assert_eq!(nl.get_neighbors(3), &[0]);
}

#[test]
fn flatten_preserves_order() {
    let mut nl = NeighborList::new(2);
    nl.set_neighbors(0, vec![5, 3, 7, 1]);
    nl.set_neighbors(1, vec![9, 0]);
    nl.flatten();

    assert_eq!(nl.get_neighbors(0), &[5, 3, 7, 1]);
    assert_eq!(nl.get_neighbors(1), &[9, 0]);
}

#[test]
fn clear_resets_all_data() {
    let mut nl = NeighborList::new(3);
    nl.set_neighbors(0, vec![1, 2]);
    nl.set_neighbors(1, vec![0]);
    nl.set_neighbors(2, vec![0, 1]);
    nl.flatten();

    nl.clear();

    assert_eq!(nl.indices_len(), 0);
    assert_eq!(nl.offsets_len(), 0);
    assert!((0..nl.num_samples()).all(|i| nl.pending_neighbors(i).is_empty()));
}

#[test]
fn mod_resize_grows() {
    let mut nl = NeighborList::new(2);
    nl.set_neighbors(0, vec![1]);
    nl.set_neighbors(1, vec![0]);

    nl.resize(5);

    assert_eq!(nl.num_samples(), 5);
    // Existing data preserved
    assert_eq!(nl.pending_neighbors(0), &vec![1]);
    assert_eq!(nl.pending_neighbors(1), &vec![0]);
    // New entries are empty
    assert!(nl.pending_neighbors(2).is_empty());
    assert!(nl.pending_neighbors(3).is_empty());
    assert!(nl.pending_neighbors(4).is_empty());
}

#[test]
fn mod_resize_shrinks() {
    let mut nl = NeighborList::new(5);
    nl.set_neighbors(0, vec![1, 2]);
    nl.set_neighbors(4, vec![0]);

    nl.resize(2);

    assert_eq!(nl.num_samples(), 2);
    assert_eq!(nl.pending_neighbors(0), &vec![1, 2]);
}

#[test]
fn flatten_called_twice() {
    let mut nl = NeighborList::new(2);
    nl.set_neighbors(0, vec![1]);
    nl.set_neighbors(1, vec![0]);
    nl.flatten();

    // Modify and flatten again
    nl.set_neighbors(0, vec![1, 3, 5]);
    nl.set_neighbors(1, vec![]);
    nl.flatten();

    assert_eq!(nl.get_neighbors(0), &[1, 3, 5]);
    assert_eq!(nl.get_neighbors(1), &[] as &[usize]);
}

#[test]
fn full_workflow_clear_repopulate_flatten() {
    let mut nl = NeighborList::new(3);

    // First iteration
    nl.set_neighbors(0, vec![1, 2]);
    nl.set_neighbors(1, vec![0, 2]);
    nl.set_neighbors(2, vec![0, 1]);
    nl.flatten();
    assert_eq!(nl.get_neighbors(0), &[1, 2]);
    assert_eq!(nl.get_neighbors(1), &[0, 2]);
    assert_eq!(nl.get_neighbors(2), &[0, 1]);

    // Second iteration (simulates next timestep)
    nl.clear();
    nl.set_neighbors(0, vec![2]);
    nl.set_neighbors(1, vec![]);
    nl.set_neighbors(2, vec![0, 1]);
    nl.flatten();
    assert_eq!(nl.get_neighbors(0), &[2]);
    assert_eq!(nl.get_neighbors(1), &[] as &[usize]);
    assert_eq!(nl.get_neighbors(2), &[0, 1]);
}

#[test]
fn mod_get_data_length_consistency() {
    let mut nl = NeighborList::new(4);
    nl.set_neighbors(0, vec![1, 2, 3]);
    nl.set_neighbors(1, vec![0]);
    nl.set_neighbors(2, vec![0, 1, 3, 4]);
    nl.set_neighbors(3, vec![]);
    nl.flatten();

    let total: usize = (0..4).map(|i| nl.get_neighbors(i).len()).sum();
    assert_eq!(total, nl.indices_len());
    assert_eq!(nl.offsets_len(), 5); // num_particles + 1
}

#[test]
fn mod_large_neighbor_list() {
    let n = 1000;
    let mut nl = NeighborList::new(n);
    for i in 0..n {
        // Each particle neighbors the next 5 (wrapping)
        nl.set_neighbors(i, (1..=5).map(|d| (i + d) % n).collect());
    }
    nl.flatten();

    for i in 0..n {
        let expected: Vec<usize> = (1..=5).map(|d| (i + d) % n).collect();
        assert_eq!(nl.get_neighbors(i), expected.as_slice());
    }
}

#[test]
fn rebuild_replaces_every_list() {
    let mut nl = NeighborList::new(2);
    nl.set_neighbors(0, vec![4]);
    nl.flatten();
    nl.rebuild(vec![vec![], vec![7, 8], vec![1]]);
    assert_eq!(nl.offsets_len(), 4);
    assert_eq!(nl.get_neighbors(0), &[] as &[usize]);
    assert_eq!(nl.get_neighbors(1), &[7, 8]);
    assert_eq!(nl.get_neighbors(2), &[1]);
    assert_eq!(nl.indices_len(), 3);
}

#[test]
fn default_list_covers_no_sample() {
    let nl = NeighborList::default();
    assert_eq!(nl.num_samples(), 0);
    assert_eq!(nl.offsets_len(), 1);
}
