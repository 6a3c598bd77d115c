use sci_phi::setup::{check_time_step_keys, inactive_time_step_keys};

#[test]
fn inactive_time_step_key_names_the_feature() {
    let document: toml::Table = toml::from_str("[parameters]\ncfl_number = 0.4").unwrap();
    let err = check_time_step_keys(&document, false).unwrap_err();
    assert!(err.to_string().contains("cfl_time_step"), "{err}");

    let document: toml::Table = toml::from_str("[parameters]\ntime_increment = 0.001").unwrap();
    let err = check_time_step_keys(&document, true).unwrap_err();
    assert!(err.to_string().contains("cfl_time_step"), "{err}");
}

#[test]
fn active_time_step_keys_are_accepted() {
    let document: toml::Table = toml::from_str("[parameters]\ntime_increment = 0.001").unwrap();
    assert_eq!(check_time_step_keys(&document, false), Ok(()));
    let document: toml::Table =
        toml::from_str("[parameters]\nmax_time_increment = 0.01\ncfl_number = 0.4").unwrap();
    assert_eq!(check_time_step_keys(&document, true), Ok(()));
}

#[test]
fn missing_or_non_table_parameters_are_accepted() {
    let document: toml::Table = toml::from_str("[scene]\ncfl_number = 0.4").unwrap();
    assert_eq!(check_time_step_keys(&document, false), Ok(()));
    let document: toml::Table = toml::from_str("parameters = 3").unwrap();
    assert_eq!(check_time_step_keys(&document, false), Ok(()));
}

#[test]
fn first_inactive_key_in_list_order_is_reported() {
    let document: toml::Table =
        toml::from_str("[parameters]\ncfl_number = 0.4\nmax_time_increment = 0.01").unwrap();
    let err = check_time_step_keys(&document, false).unwrap_err();
    assert!(err.starts_with("`max_time_increment`"), "{err}");
    let keys = inactive_time_step_keys(false);
    assert_eq!(keys.len(), 2);
    assert_eq!(keys[0].0, "max_time_increment");
    assert_eq!(inactive_time_step_keys(true)[0].0, "time_increment");
}
