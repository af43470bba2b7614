use gungnir_app::anomaly::{detector_status, raise_new, AnomalyConfig, AnomalySubject, DetectorStatus};
use std::collections::BTreeSet;

#[test]
fn an_unconfigured_detector_is_visibly_absent() {
    let all = AnomalyConfig { loitering: true, kinematics: true, feed: false, cooperative: true };
    assert_eq!(
        detector_status(all, false),
        vec![
            ("loitering", DetectorStatus::ConfiguredButUnable("no watched extents can be configured yet")),
            ("implausible-kinematics", DetectorStatus::Running),
            ("feed", DetectorStatus::Off),
            ("cooperative", DetectorStatus::ConfiguredButUnable("no AIS feed is bound (GAP-010)")),
        ]
    );
}

#[test]
fn a_configured_detector_that_can_fire_is_running() {
    let cooperative = AnomalyConfig { loitering: false, kinematics: false, feed: false, cooperative: true };
    assert_eq!(detector_status(cooperative, true)[3].1, DetectorStatus::Running);
    let none = AnomalyConfig { loitering: false, kinematics: false, feed: false, cooperative: false };
    assert_eq!(detector_status(none, true)[3].1, DetectorStatus::Off);
    assert_eq!(detector_status(none, false)[3].1, DetectorStatus::Off);
}

#[test]
fn an_anomaly_is_raised_once_per_kind_and_subject() {
    let mut raised = BTreeSet::new();
    let frame = [
        (1, AnomalySubject::Track(7)),
        (1, AnomalySubject::Sensor(7)),
        (2, AnomalySubject::Track(7)),
        (1, AnomalySubject::Track(7)),
    ];
    assert_eq!(raise_new(&mut raised, &frame), vec![0, 1, 2]);
    assert_eq!(raised.len(), 3);
    // The next frame finds the same anomalies and one new one.
    let next = [(1, AnomalySubject::Track(7)), (3, AnomalySubject::Sensor(2))];
    assert_eq!(raise_new(&mut raised, &next), vec![1]);
    assert!(raise_new(&mut raised, &frame).is_empty());
}
