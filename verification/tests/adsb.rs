use gungnir_app::adsb::{adsb_label, declared_class, platform_class_of_category};
use gungnir_app::cooperative::{ais_label, count_report, evidence_kind, platform_class_of_ship_type, Association};

#[test]
fn every_crewed_aircraft_subcategory_under_set_a_maps_to_one_class() {
    for code in 1..=7u8 {
        assert_eq!(
            platform_class_of_category('A', code),
            Some("air.crewed"),
            "category A{code}"
        );
    }
}

#[test]
fn no_category_information_and_every_other_set_are_unmapped() {
    assert_eq!(
        platform_class_of_category('A', 0),
        None,
        "0 is \"no category information\", not a class"
    );
    for set in ['B', 'C', 'D'] {
        for code in 0..=7u8 {
            assert_eq!(
                platform_class_of_category(set, code),
                None,
                "the mission names no class for set {set}"
            );
        }
    }
}

#[test]
fn set_a_codes_past_seven_are_unmapped() {
    assert_eq!(platform_class_of_category('A', 8), None);
    assert_eq!(platform_class_of_category('a', 3), None);
}

#[test]
fn ship_types_map_to_their_table_53_classes() {
    assert_eq!(platform_class_of_ship_type(20), Some("surface.wig"));
    assert_eq!(platform_class_of_ship_type(29), Some("surface.wig"));
    assert_eq!(platform_class_of_ship_type(30), Some("surface.fishing"));
    assert_eq!(platform_class_of_ship_type(32), Some("surface.towing"));
    assert_eq!(platform_class_of_ship_type(35), Some("surface.military"));
    assert_eq!(platform_class_of_ship_type(45), Some("surface.high-speed-craft"));
    assert_eq!(platform_class_of_ship_type(51), Some("surface.search-and-rescue"));
    assert_eq!(platform_class_of_ship_type(58), Some("surface.medical"));
    assert_eq!(platform_class_of_ship_type(65), Some("surface.passenger"));
    assert_eq!(platform_class_of_ship_type(70), Some("surface.cargo"));
    assert_eq!(platform_class_of_ship_type(89), Some("surface.tanker"));
    assert_eq!(platform_class_of_ship_type(99), Some("surface.other"));
}

#[test]
fn reserved_and_unassigned_ship_types_are_unmapped() {
    for code in [0u8, 19, 38, 39, 56, 57, 59, 100, 255] {
        assert_eq!(platform_class_of_ship_type(code), None, "code {code}");
    }
}

#[test]
fn an_adsb_report_names_its_address_in_six_hex_digits() {
    assert_eq!(adsb_label(0x4CA2F1, Some(" RYR12A ")), "ADS-B 4CA2F1 (RYR12A)");
    assert_eq!(adsb_label(0xAB, None), "ADS-B 0000AB");
    assert_eq!(declared_class(Some('A'), Some(3)), Some("air.crewed"));
    assert_eq!(declared_class(Some('A'), None), None);
}

#[test]
fn an_ais_report_names_its_mmsi_and_counts_whether_it_matched() {
    assert_eq!(ais_label(235_009_000, Some("PRIDE")), "AIS MMSI 235009000 (PRIDE)");
    assert_eq!(ais_label(235_009_000, None), "AIS MMSI 235009000");
    assert_eq!(evidence_kind("AIS MMSI 1"), "cooperative identity (AIS)");
    assert_eq!(evidence_kind("ADS-B 0000AB"), "identity evidence");
    let mut tally = Association { matched: 0, unmatched: 0 };
    count_report(&mut tally, true);
    count_report(&mut tally, false);
    count_report(&mut tally, false);
    assert_eq!(tally, Association { matched: 1, unmatched: 2 });
}
