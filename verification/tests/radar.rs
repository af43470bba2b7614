use gungnir_app::radar::{
    feed_line, feed_specs, no_frame_alert, not_bound, service_observations, unparsed_feeds, DfBinding, DfSite, FeedConfig,
    FeedStats, RadarBinding, RadarSite, SensorSite, ServiceKind, ServiceObservation,
};

fn sensors() -> Vec<SensorSite<(i32, i32)>> {
    vec![SensorSite { id: 21, position: (9, 2) }, SensorSite { id: 61, position: (9, 3) }]
}

fn feed(name: &str) -> FeedConfig<u16, u8, u32> {
    FeedConfig {
        name: name.into(),
        bind_addr: Some(8600),
        multicast: None,
        radars: vec![RadarSite { sac: 1, sic: 2, sensor_id: 99 }],
        df_sites: vec![DfSite { sac: 50, sic: 6, sensor_id: 21, azimuth_sigma: 26 }],
        uas_sites: vec![RadarSite { sac: 0, sic: 0, sensor_id: 61 }, RadarSite { sac: 0, sic: 1, sensor_id: 62 }],
    }
}

#[test]
fn feed_specs_carries_a_configured_direction_finder_into_the_binding() {
    let specs = feed_specs(&[feed("north")], &sensors());
    assert_eq!(specs.len(), 1);
    assert_eq!(specs[0].name, "north");
    assert_eq!(specs[0].bind_addr, 8600);
    assert_eq!(
        specs[0].df_sites,
        vec![DfBinding { sac: 50, sic: 6, sensor: 21, position: (9, 2), azimuth_sigma: 26 }]
    );
    assert!(specs[0].radars.is_empty(), "a radar no sensor names is absent");
}

#[test]
fn feed_specs_carries_a_configured_uas_gateway_into_the_binding() {
    let specs = feed_specs(&[feed("utm")], &sensors());
    assert_eq!(specs[0].uas_sites, vec![RadarSite { sac: 0, sic: 0, sensor_id: 61 }]);
}

#[test]
fn a_feed_whose_addresses_do_not_parse_is_left_out() {
    let mut bad = feed("bad");
    bad.bind_addr = None;
    let mut bad_group = feed("bad-group");
    bad_group.multicast = Some(None);
    let mut good = feed("good");
    good.radars = vec![RadarSite { sac: 1, sic: 2, sensor_id: 21 }];
    let specs = feed_specs(&[bad, bad_group, good], &sensors());
    assert_eq!(specs.len(), 1);
    assert_eq!(specs[0].radars, vec![RadarBinding { sac: 1, sic: 2, sensor: 21, position: (9, 2) }]);
}

#[test]
fn radar_feed_alerts_and_lines() {
    assert_eq!(
        no_frame_alert(2),
        "2 radar feed(s) configured and no local frame origin declared: no adapter is bound, because a plot cannot be placed without one"
    );
    assert_eq!(not_bound("north", "address in use"), "radar feed north not bound: address in use");
    let line = feed_line(
        "north",
        FeedStats {
            datagrams: 10,
            detections: 4,
            service_reports: 2,
            malformed_datagrams: 1,
            malformed_blocks: 2,
            unsupported_category_blocks: 3,
            unknown_radar: 5,
        },
    );
    assert_eq!(line.not_decoded, 6);
    assert_eq!(line.unknown_radar, 5);
}

#[test]
fn a_service_message_makes_a_marker_and_a_status() {
    assert_eq!(
        service_observations(ServiceKind::NorthMarker, 4u8, Some(true), Some(false), Some(false)),
        vec![
            ServiceObservation::NorthMarker { rotation_period: 4 },
            ServiceObservation::Status {
                released_for_operational_use: true,
                overloaded: false,
                time_source_invalid: false
            },
        ]
    );
    assert!(service_observations(ServiceKind::Other, 4u8, Some(true), None, Some(false)).is_empty());
}

#[test]
fn a_feed_whose_address_does_not_parse_is_named_not_dropped() {
    let mut bad_bind = feed("west");
    bad_bind.bind_addr = None;
    let mut bad_group = feed("east");
    bad_group.multicast = Some(None);
    let feeds = vec![feed("north"), bad_bind, bad_group];
    let specs = feed_specs(&feeds, &sensors());
    assert_eq!(specs.len(), 1);
    assert_eq!(specs[0].name, "north");
    assert_eq!(unparsed_feeds(&feeds), vec!["west".to_string(), "east".to_string()]);
}
