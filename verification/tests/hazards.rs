use gungnir_app::hazards::{kind_label, kinds, parse_kind, ConfigError, HazardKind};

#[test]
fn every_configurable_kind_maps_to_a_geo_kind_and_back() {
    for kind in kinds() {
        let parsed = parse_kind(kind).unwrap_or_else(|e| panic!("{kind}: {e:?}"));
        let label = kind_label(parsed);
        assert!(label == kind || (kind == "other" && label == "hazard"), "{kind} -> {parsed:?} -> {label}");
    }
    assert!(parse_kind("minefield").is_err());
}

#[test]
fn an_unknown_kind_is_refused_by_name_with_the_accepted_list() {
    assert_eq!(
        parse_kind("minefield"),
        Err(ConfigError::Invalid(
            "hazard kind \"minefield\" is not one of [\"boom\", \"net\", \"barrier\", \"wreck\", \"shoal\", \"other\"]"
                .into()
        ))
    );
}

#[test]
fn the_kind_spellings_are_exact() {
    assert_eq!(parse_kind("wreck"), Ok(HazardKind::Wreck));
    assert_eq!(parse_kind("shoal"), Ok(HazardKind::Shoal));
    assert!(parse_kind("Boom").is_err());
    assert!(parse_kind(" net").is_err());
    assert_eq!(kind_label(HazardKind::Other), "hazard");
    assert_eq!(kinds().len(), 6);
}
