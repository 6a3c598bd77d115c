use sci_phi::setup::{check_parameter_text, ParameterError};
use sci_phi::sph::integration_schemes::IntegrationSchemeVariant::{EulerCromer, TakePredicted, Verlet};
use sci_phi::sph::pressure_solver::PressureSolverVariant::{IISPH, IISPHwOST, SESPHwSplitting, SESPH};
use sci_phi::sph::setup::{
    check_pairing, check_procedures, fluid_index_map, initial_time_steps_propagated, plan_scene,
    resolve_fluid_defs, resolve_meshes, SetupError,
};

fn names(xs: &[&str]) -> Vec<String> {
    xs.iter().map(|s| s.to_string()).collect()
}

#[test]
fn pairing_mismatch_is_rejected_first() {
    assert_eq!(check_pairing(true, false, true, false), Err(SetupError::IncompatibleIntegrationPairing));
    assert_eq!(check_pairing(false, true, false, true), Err(SetupError::IncompatibleIntegrationPairing));
    assert_eq!(check_pairing(true, true, false, true), Err(SetupError::IncompatibleDynamicBoundary));
    assert_eq!(check_pairing(true, true, false, false), Ok(()));
    assert_eq!(check_pairing(false, false, true, true), Ok(()));
}

#[test]
fn solvers_and_schemes_pair_as_documented() {
    assert_eq!(check_procedures(IISPHwOST, TakePredicted, false), Ok(()));
    assert_eq!(check_procedures(IISPHwOST, EulerCromer, false), Err(SetupError::IncompatibleIntegrationPairing));
    assert_eq!(check_procedures(IISPH, TakePredicted, false), Err(SetupError::IncompatibleIntegrationPairing));
    assert_eq!(check_procedures(IISPHwOST, TakePredicted, true), Err(SetupError::IncompatibleDynamicBoundary));
    assert_eq!(check_procedures(SESPH, Verlet, true), Ok(()));
    assert!(TakePredicted.commits_solver_prediction());
    assert!(!SESPHwSplitting.manages_own_integration());
    assert!(IISPH.supports_dynamic_boundaries());
}

#[test]
fn fluid_definitions_resolve_to_meshes_and_fluids() {
    let meshes = names(&["box", "tank"]);
    let ids = vec![3, 5, 3];
    let defs = vec![("tank".to_string(), 3), ("box".to_string(), 5)];
    // the last fluid of an id is the one used
    assert_eq!(resolve_fluid_defs(&meshes, &ids, &defs), Ok(vec![(1, 2), (0, 1)]));
    let defs = vec![("box".to_string(), 7), ("cup".to_string(), 3)];
    assert_eq!(resolve_fluid_defs(&meshes, &ids, &defs), Err(SetupError::UndefinedFluidId(7)));
    let defs = vec![("cup".to_string(), 7)];
    assert_eq!(resolve_fluid_defs(&meshes, &ids, &defs), Err(SetupError::UnknownMesh("cup".to_string())));
}

#[test]
fn boundary_meshes_resolve_in_order() {
    let meshes = names(&["a", "b"]);
    assert_eq!(resolve_meshes(&meshes, &names(&["b", "a", "b"])), Ok(vec![1, 0, 1]));
    assert_eq!(resolve_meshes(&meshes, &names(&["a", "c", "d"])), Err(SetupError::UnknownMesh("c".to_string())));
}

#[test]
fn scene_checks_come_in_order() {
    let meshes = names(&["fluid", "walls"]);
    let ids = vec![1];
    let defs = vec![("fluid".to_string(), 2)];
    // an undefined fluid id is found before a bad pairing
    assert_eq!(
        plan_scene(&meshes, &ids, &defs, &names(&["walls"]), &names(&[]), false, IISPHwOST, Verlet),
        Err(SetupError::UndefinedFluidId(2))
    );
    // resuming from a saved state skips the fluid definitions
    assert_eq!(
        plan_scene(&meshes, &ids, &defs, &names(&["walls"]), &names(&[]), true, IISPHwOST, Verlet),
        Err(SetupError::IncompatibleIntegrationPairing)
    );
    assert_eq!(
        plan_scene(&meshes, &ids, &defs, &names(&["pool"]), &names(&[]), true, SESPH, Verlet),
        Err(SetupError::UnknownMesh("pool".to_string()))
    );
    assert_eq!(
        plan_scene(&meshes, &ids, &defs, &names(&[]), &names(&["walls"]), true, IISPHwOST, TakePredicted),
        Err(SetupError::IncompatibleDynamicBoundary)
    );
    let plan = plan_scene(&meshes, &ids, &vec![("fluid".to_string(), 1)], &names(&["walls"]), &names(&["fluid"]), false, SESPH, EulerCromer).unwrap();
    assert_eq!(plan.fluids, vec![(0, 0)]);
    assert_eq!(plan.static_boundaries, vec![1]);
    assert_eq!(plan.dynamic_boundaries, vec![0]);
}

#[test]
fn resumed_systems_start_at_the_saved_time_step() {
    assert_eq!(initial_time_steps_propagated(None), 0);
    assert_eq!(initial_time_steps_propagated(Some(42)), 42);
}

#[test]
fn parameter_text_is_parsed_and_checked() {
    let doc = check_parameter_text("[parameters]\ntime_increment = 0.001", false).unwrap();
    assert!(doc.contains_key("parameters"));
    match check_parameter_text("[parameters]\ncfl_number = 0.4", false) {
        Err(ParameterError::FeatureMismatch(d)) => assert!(d.contains("cfl_time_step"), "{d}"),
        other => panic!("unexpected {other:?}"),
    }
    assert!(matches!(check_parameter_text("[parameters\n", false), Err(ParameterError::Toml(_))));
}

#[test]
fn fluid_ids_map_to_their_last_position() {
    let m = fluid_index_map(&vec![4, 9, 4]);
    assert_eq!(m.len(), 2);
    assert_eq!(m.get(&4), Some(&2));
    assert_eq!(m.get(&9), Some(&1));
    assert_eq!(m.get(&1), None);
    assert!(fluid_index_map(&Vec::new()).is_empty());
}
