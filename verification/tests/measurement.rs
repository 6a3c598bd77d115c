use sci_phi::measurement::{probe_file_name, FileNameProbe, MeasurementSeries, FIRST_FILE_COUNTER, LAST_FILE_COUNTER};

#[test]
fn a_free_name_is_kept() {
    assert_eq!(probe_file_name("series", "csv", FIRST_FILE_COUNTER, false), FileNameProbe::Keep);
}

#[test]
fn a_taken_name_is_numbered() {
    assert_eq!(
        probe_file_name("series", "csv", FIRST_FILE_COUNTER, true),
        FileNameProbe::Rename { file_name: "series_#2.csv".to_string(), next_counter: 3 }
    );
    assert_eq!(
        probe_file_name("series", "", 41, true),
        FileNameProbe::Rename { file_name: "series_#41.".to_string(), next_counter: 42 }
    );
}

#[test]
fn the_numbered_names_run_out() {
    assert_eq!(
        probe_file_name("series", "csv", LAST_FILE_COUNTER, true),
        FileNameProbe::Rename { file_name: "series_#65535.csv".to_string(), next_counter: 65536 }
    );
    assert_eq!(probe_file_name("series", "csv", LAST_FILE_COUNTER + 1, true), FileNameProbe::Exhausted);
    assert_eq!(probe_file_name("series", "csv", LAST_FILE_COUNTER + 1, false), FileNameProbe::Keep);
}

#[test]
fn probing_a_sequence_of_taken_names() {
    // the first three candidates exist, the fourth does not
    let taken = ["m.csv", "m_#2.csv", "m_#3.csv"];
    let mut name = "m.csv".to_string();
    let mut counter = FIRST_FILE_COUNTER;
    loop {
        match probe_file_name("m", "csv", counter, taken.contains(&name.as_str())) {
            FileNameProbe::Keep => break,
            FileNameProbe::Rename { file_name, next_counter } => {
                name = file_name;
                counter = next_counter;
            }
            FileNameProbe::Exhausted => panic!("names ran out"),
        }
    }
    assert_eq!(name, "m_#4.csv");
}

#[test]
fn measurements_are_kept_in_order() {
    let mut series: MeasurementSeries<(u32, f64)> = MeasurementSeries::new("out/run.csv".to_string());
    assert_eq!(series.get_path(), "out/run.csv");
    assert_eq!(series.len(), 0);
    series.push_back((1, 0.5));
    series.push_back((2, 0.25));
    assert_eq!(series.len(), 2);
    assert_eq!(*series.get(0), (1, 0.5));
    assert_eq!(*series.get(1), (2, 0.25));
}
