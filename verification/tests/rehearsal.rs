use gungnir_app::misb;
use gungnir_app::prediction::{asset_name, prediction_gate, predictor_name, AssetName, PredictionOutcome, PredictorKind};
use gungnir_app::rehearsal::{install_check, label, seed_hash, to_lower_hex, RehearsalError};
use gungnir_app::sapient;

#[test]
fn a_seed_is_identified_by_its_sha256() {
    assert_eq!(seed_hash(b"abc"), "ba7816bf8f01cfea414140de5dae2223b00361a396177a9cb410ff61f20015ad");
    assert_eq!(seed_hash(b"").len(), 64);
    assert_eq!(to_lower_hex(&[0x00, 0x0f, 0xa5]), "000fa5");
}

#[test]
fn the_picture_carries_the_seed_and_its_hash() {
    let hash = seed_hash(b"abc");
    assert_eq!(label("harbour", &hash), "rehearsal: harbour (ba7816bf8f01)");
}

#[test]
fn a_rehearsal_runs_only_embedded() {
    assert_eq!(install_check(true), Ok(()));
    assert_eq!(install_check(false), Err(RehearsalError::NotEmbedded));
    assert_eq!(
        RehearsalError::Malformed { path: "s.json".into(), reason: "eof".into() }.message(),
        "the seed s.json is not a rehearsal seed: eof"
    );
}

#[test]
fn prediction_needs_a_declared_horizon() {
    assert_eq!(prediction_gate(0), Err("the baseline declares no prediction horizons"));
    assert_eq!(prediction_gate(3), Ok(()));
    let none: PredictionOutcome<u8> = PredictionOutcome::NotPredicted { reason: "no horizons" };
    assert!(none.predictions().is_empty());
    assert_eq!(none.reason(), Some("no horizons"));
    let some = PredictionOutcome::Predicted(vec![1u8, 2]);
    assert_eq!(some.predictions(), &[1, 2]);
    assert_eq!(some.reason(), None);
    assert_eq!(predictor_name(PredictorKind::Filter), "filter prediction");
    let assets = vec![AssetName { id: 2, name: "pier".into() }];
    assert_eq!(asset_name(&assets, 2), "pier");
    assert_eq!(asset_name(&assets, 5), "asset 5");
}

#[test]
fn feeds_that_cannot_bind_are_said() {
    assert!(misb::no_frame_alert(1).starts_with("1 MISB feed(s) configured"));
    assert_eq!(misb::not_bound("uav", "refused"), "MISB feed uav not bound: refused");
    assert_eq!(misb::not_a_socket_address("x:y", "invalid"), "x:y: not a socket address (invalid)");
    assert_eq!(
        sapient::unlisted_sensor("north", 4),
        "SAPIENT feed north names sensor 4, which is not in the sensor list"
    );
    assert_eq!(sapient::not_bound("north", "refused"), "SAPIENT feed north not bound: refused");
    assert!(sapient::no_frame_alert(2).contains("no node is bound"));
}
