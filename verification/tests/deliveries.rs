use gungnir_app::deliveries::{sweep_warnings, undelivered_alert, DeliveryOutcome, PendingWarning, WarningFailure};

fn pending(track: u64) -> PendingWarning<()> {
    PendingWarning { asset: 1, track, endpoint: "harbour-master".into(), in_flight: () }
}

#[test]
fn three_outcomes_are_never_collapsed() {
    let (still, failed) = sweep_warnings(vec![
        (pending(10), None),
        (pending(11), Some(DeliveryOutcome::Accepted)),
        (pending(12), Some(DeliveryOutcome::Refused { status: 409, body: "duplicate".into() })),
        (pending(13), Some(DeliveryOutcome::Unreachable { reason: "timeout".into() })),
    ]);
    assert_eq!(still.len(), 1);
    assert_eq!(still[0].track, 10);
    assert_eq!(
        failed,
        vec![
            WarningFailure { asset: 1, track: 12, reason: "harbour-master refused it: 409 duplicate".into() },
            WarningFailure { asset: 1, track: 13, reason: "harbour-master unreachable: timeout".into() },
        ]
    );
}

#[test]
fn an_undelivered_warning_says_to_warn_by_voice() {
    assert_eq!(
        undelivered_alert(12, "harbour-master unreachable: timeout"),
        "warning because of track 12 was not delivered: harbour-master unreachable: timeout; warn by voice"
    );
}
