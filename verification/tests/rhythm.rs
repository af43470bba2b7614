use gungnir_app::governance::in_force_label;
use gungnir_app::rhythm::{disposition, handover_notes, overrun_alert, reason_of, Handover, ProductDisposition};

#[test]
fn an_overrun_names_the_sensor_and_the_reason() {
    assert_eq!(
        overrun_alert(4, &reason_of(Some("antenna swap"))),
        "Sensor 4 did not return from planned maintenance (antenna swap); it is off the air and nobody has said why"
    );
    assert_eq!(reason_of(None), "reason not recorded");
}

#[test]
fn a_product_with_an_endpoint_is_owed_never_dropped() {
    assert_eq!(disposition(None), ProductDisposition::Held);
    assert_eq!(
        disposition(Some("higher-hq")),
        ProductDisposition::Undelivered {
            endpoint: "higher-hq".into(),
            reason: "no delivery path exists yet (GAP-040)".into()
        }
    );
}

#[test]
fn handover_notes_are_kept_until_the_next_watch_accepts() {
    assert_eq!(handover_notes(Handover::Open, "radar 2 flaky".into()), Ok(Some("radar 2 flaky".into())));
    assert_eq!(handover_notes(Handover::Open, "   ".into()), Ok(None));
    assert_eq!(handover_notes(Handover::NoneOpen, "x".into()), Err("no handover is open"));
    assert_eq!(handover_notes(Handover::Acknowledged, "x".into()), Err("this handover was already acknowledged"));
}

#[test]
fn the_console_says_what_it_is_running() {
    assert_eq!(in_force_label(Some("gate failed"), Some("b-1")), "no algorithm configuration is in force: gate failed");
    assert_eq!(in_force_label(None, Some("imm-v2")), "imm-v2");
    assert_eq!(in_force_label(None, None), "no algorithm configuration is declared");
}
