use gungnir_app::laydown_rehearsal::{
    catalogue_path, check_observers, fixture_dir, observes, resolve_sensors, DeclaredSensor, PlacedSensor, RehearsalError, Resolved,
    SensorMode,
};

fn declared() -> Vec<DeclaredSensor> {
    vec![
        DeclaredSensor { id: 1, detection_model: Some("radar.short".into()) },
        DeclaredSensor { id: 2, detection_model: None },
        DeclaredSensor { id: 3, detection_model: Some("radar.imaginary".into()) },
    ]
}

fn catalogue() -> Vec<String> {
    vec!["radar.short".into(), "radar.long".into()]
}

#[test]
fn a_sensor_is_resolved_to_its_own_named_model_or_refused_by_name() {
    let ok = resolve_sensors(
        "L-1",
        &[PlacedSensor { sensor: 1, mode: SensorMode::Search }],
        &declared(),
        &catalogue(),
        "tracks/sensor-models.json",
    );
    assert_eq!(ok, Ok(vec![Resolved { declared: 0, model: Some("radar.short".into()) }]));

    let none = resolve_sensors(
        "L-1",
        &[PlacedSensor { sensor: 2, mode: SensorMode::Track }],
        &declared(),
        &catalogue(),
        "c.json",
    );
    assert_eq!(none, Err(RehearsalError::NoDetectionModel { laydown: "L-1".into(), sensor: 2 }));

    let unknown = resolve_sensors(
        "L-1",
        &[PlacedSensor { sensor: 3, mode: SensorMode::Search }],
        &declared(),
        &catalogue(),
        "c.json",
    );
    let err = unknown.expect_err("an unknown model is a refusal");
    assert_eq!(
        err.message(),
        "sensor 3 names the detection model \"radar.imaginary\", which the sensor catalogue (c.json) does not hold"
    );

    let standby = resolve_sensors(
        "L-1",
        &[PlacedSensor { sensor: 2, mode: SensorMode::Standby }],
        &declared(),
        &catalogue(),
        "c.json",
    );
    assert_eq!(standby, Ok(vec![Resolved { declared: 1, model: None }]), "standby needs none");
}

#[test]
fn an_undeclared_sensor_is_refused_first() {
    let r = resolve_sensors(
        "L-2",
        &[PlacedSensor { sensor: 1, mode: SensorMode::Search }, PlacedSensor { sensor: 9, mode: SensorMode::Search }],
        &declared(),
        &catalogue(),
        "c.json",
    );
    let err = r.expect_err("sensor 9 is not declared");
    assert_eq!(err, RehearsalError::UndeclaredSensor { laydown: "L-2".into(), sensor: 9 });
    assert_eq!(err.message(), "laydown L-2 places sensor 9, which this baseline does not declare");
}

#[test]
fn only_searching_and_tracking_sensors_observe() {
    assert!(observes(SensorMode::Search));
    assert!(observes(SensorMode::Track));
    assert!(!observes(SensorMode::Standby));
    assert!(!observes(SensorMode::Offline));
}

#[test]
fn the_recordings_files_are_under_the_testdata_root() {
    assert_eq!(catalogue_path("testdata"), "testdata/tracks/sensor-models.json");
    assert_eq!(catalogue_path("testdata/"), "testdata/tracks/sensor-models.json");
    assert_eq!(fixture_dir("TT-01", "/w/testdata"), "/w/testdata/tracks/samples/TT-01-sample");
}

#[test]
fn a_run_that_did_not_settle_says_what_it_had_taken() {
    assert_eq!(
        RehearsalError::DidNotSettle { submitted: 40, taken: 38 }.message(),
        "the pipeline never reported the end of the run: it had taken 38 of the 40 detection(s) fed to it, and what it formed is not this scenario's answer"
    );
}

#[test]
fn a_laydown_with_nothing_observing_is_refused_by_name() {
    let standing_by = vec![Resolved { declared: 1, model: None }, Resolved { declared: 0, model: None }];
    let refused = check_observers("LD-2", "coastal pass", &standing_by);
    assert_eq!(
        refused,
        Err(RehearsalError::NothingObserves { laydown: "LD-2".into(), scenario: "coastal pass".into() })
    );
    assert_eq!(
        refused.unwrap_err().message(),
        "laydown LD-2 places no sensor in a mode that observes (search or track), so there is nothing to re-observe coastal pass with"
    );
    let one_searching = vec![Resolved { declared: 1, model: None }, Resolved { declared: 0, model: Some("radar.short".into()) }];
    assert_eq!(check_observers("LD-2", "coastal pass", &one_searching), Ok(()));
}
