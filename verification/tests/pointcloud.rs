use gungnir_app::pointcloud::{
    describe, layers, placement, registration_line, registration_step, request_for, wkt_system_name, CrsFacts,
    FileCrs, FusionBackend, GpuProbe, LoadRequest, PairLoad, Placement, PointCloudRegistrationLine, PointCloudStatus,
    RegistrationStep, VerticalScale,
};

fn buffer(points: usize) -> Vec<[u8; 3]> {
    vec![[0, 0, 0]; points]
}

#[test]
fn layers_are_empty_until_the_pair_is_loaded() {
    let mut clouds: Vec<Vec<[u8; 3]>> = Vec::new();
    let status = PointCloudStatus::Loading { source: "a.las".into(), target: "b.las".into() };
    assert!(layers(&status, &clouds).is_empty());

    clouds.push(buffer(3));
    assert!(layers(&status, &clouds).is_empty(), "one arrived cloud is still not a pair");

    let status = PointCloudStatus::Failed { path: "a.las".into(), reason: "gone".into() };
    assert!(layers(&status, &clouds).is_empty());
}

#[test]
fn a_loaded_pair_becomes_two_layers_in_source_then_target_order() {
    let clouds = vec![buffer(5), buffer(7)];
    let status = PointCloudStatus::Loaded {
        source: "a.las".into(),
        target: "b.copc.laz".into(),
        source_points: 5,
        target_points: 7,
    };
    let built = layers(&status, &clouds);
    assert_eq!(built.len(), 2);
    assert_eq!(built[0].len(), 5);
    assert_eq!(built[1].len(), 7);
}

#[test]
fn registration_line_reports_not_configured_pending_and_cpu_fallback() {
    assert_eq!(
        registration_line(&PointCloudStatus::NotConfigured, &FusionBackend::new()),
        PointCloudRegistrationLine::NotConfigured
    );
    let loaded = PointCloudStatus::Loaded {
        source: "s".into(),
        target: "t".into(),
        source_points: 1,
        target_points: 1,
    };
    assert_eq!(
        registration_line(&loaded, &FusionBackend::new()),
        PointCloudRegistrationLine::Pending,
        "a pair loaded before any backend resolved must not be claimed as either one"
    );
    assert_eq!(
        registration_line(&loaded, &FusionBackend::Cpu { reason: "no suitable GPU adapter".into() }),
        PointCloudRegistrationLine::CpuFallback { reason: "no suitable GPU adapter".into() }
    );
}

#[test]
fn new_is_uninitialized_and_touches_nothing() {
    let backend = FusionBackend::new();
    assert!(!backend.is_gpu());
    assert_eq!(backend, FusionBackend::Uninitialized);
    assert_eq!(backend.status_text(), "GPU point-cloud registration: not yet probed");
}

#[test]
fn a_cpu_backend_says_why_the_gpu_is_not_in_use() {
    let backend = FusionBackend::Cpu { reason: "no adapter".into() };
    assert_eq!(
        backend.status_text(),
        "GPU point-cloud registration unavailable (no adapter); CPU reference in use"
    );
}

#[test]
fn a_pair_registers_once_built_and_steps_after() {
    let loaded = PointCloudStatus::Loaded {
        source: "s".into(),
        target: "t".into(),
        source_points: 4,
        target_points: 4,
    };
    assert_eq!(registration_step(&PointCloudStatus::NotConfigured, false), RegistrationStep::NoPair);
    assert_eq!(registration_step(&loaded, false), RegistrationStep::Build);
    assert_eq!(registration_step(&loaded, true), RegistrationStep::Step);
    let loading = PointCloudStatus::Loading { source: "s".into(), target: "t".into() };
    assert_eq!(registration_step(&loading, true), RegistrationStep::NoPair);
}

#[test]
fn a_pair_is_loaded_whole_source_first() {
    let mut pair: PairLoad<Vec<[u8; 3]>> = PairLoad::new();
    assert_eq!(*pair.status(), PointCloudStatus::NotConfigured);
    pair.start(Some(("a.las", "b.las")), Ok(()));
    assert!(pair.is_loading());
    assert_eq!(
        *pair.status(),
        PointCloudStatus::Loading { source: "a.las".into(), target: "b.las".into() }
    );
    assert_eq!(pair.apply_result(Ok((buffer(5), 5))), None);
    assert_eq!(pair.clouds().len(), 1);
    assert!(!pair.status().is_loaded());
    assert_eq!(pair.apply_result(Ok((buffer(7), 7))), None);
    assert_eq!(
        *pair.status(),
        PointCloudStatus::Loaded {
            source: "a.las".into(),
            target: "b.las".into(),
            source_points: 5,
            target_points: 7
        }
    );
    assert_eq!(pair.clouds().len(), 2);
}

#[test]
fn a_load_error_is_never_swallowed() {
    let mut pair: PairLoad<Vec<[u8; 3]>> = PairLoad::new();
    pair.start(Some(("a.las", "b.las")), Ok(()));
    assert_eq!(pair.apply_result(Ok((buffer(5), 5))), None);
    let alert = pair.apply_result(Err("no such file".into()));
    assert!(alert.expect("a failure is said").contains("no such file"));
    assert!(pair.clouds().is_empty(), "half a pair is never kept");
    match pair.status() {
        PointCloudStatus::Failed { reason, .. } => assert!(reason.contains("no such file")),
        other => panic!("{other:?}"),
    }
}

#[test]
fn a_loader_that_is_gone_fails_the_load_at_once() {
    let mut pair: PairLoad<Vec<[u8; 3]>> = PairLoad::new();
    pair.start(Some(("a.las", "b.las")), Err("closed".into()));
    assert!(!pair.is_loading());
    assert_eq!(
        *pair.status(),
        PointCloudStatus::Failed { path: "a.las".into(), reason: "the loader thread is gone: closed".into() }
    );
}

#[test]
fn a_copc_file_requests_a_bounded_read_and_a_plain_file_does_not() {
    let bounds = [0u8, 0, 0, 1, 1, 1];
    assert_eq!(
        request_for("clouds/a.copc.laz", Some(bounds)),
        LoadRequest::CopcBounded("clouds/a.copc.laz".into(), bounds)
    );
    assert_eq!(request_for::<[u8; 6]>("clouds/a.las", None), LoadRequest::PointCloud("clouds/a.las".into()));
}

fn utm(agrees: bool, unit: Option<u8>) -> CrsFacts<u8> {
    CrsFacts {
        crs: FileCrs::Wkt("PROJCS[\"WGS 84 / UTM zone 32N\",GEOGCS[\"WGS 84\"]]".into()),
        proj_definition: Some("PROJCS[...]".into()),
        agrees_with_declared: agrees,
        vertical_unit: unit,
    }
}

#[test]
fn a_wkt_is_named_by_its_first_quoted_string() {
    assert_eq!(wkt_system_name("PROJCS[\"WGS 84 / UTM zone 32N\",X]"), "WGS 84 / UTM zone 32N");
    assert_eq!(wkt_system_name("LOCAL_CS[]"), "an unnamed system");
    assert_eq!(wkt_system_name("A[\"unclosed"), "an unnamed system");
    assert_eq!(describe(None), "nothing");
    assert_eq!(describe(Some(&FileCrs::Wkt("X[\"ETRS89\"]".into()))), "\"ETRS89\"");
}

#[test]
fn a_local_claim_stands_only_where_nothing_contradicts_it() {
    assert_eq!(placement::<u8>(None, None, false), Placement::AsLoaded);
    match placement(None, Some(&utm(true, Some(1))), true) {
        Placement::Refused(r) => assert!(r.starts_with(
            "the file declares its own coordinate reference system (\"WGS 84 / UTM zone 32N\")"
        )),
        other => panic!("{other:?}"),
    }
}

#[test]
fn a_declared_code_converts_or_is_refused_by_name() {
    match placement::<u8>(Some(32632), None, false) {
        Placement::Refused(r) => assert!(r.starts_with("point_cloud.frame is \"epsg:32632\"")),
        other => panic!("{other:?}"),
    }
    assert_eq!(
        placement::<u8>(Some(32632), None, true),
        Placement::Convert { source: "EPSG:32632".into(), vertical: VerticalScale::AssumedMetres }
    );
    assert_eq!(
        placement(Some(32632), Some(&utm(true, Some(3))), true),
        Placement::Convert { source: "PROJCS[...]".into(), vertical: VerticalScale::Declared(3) }
    );
    match placement(Some(32633), Some(&utm(false, Some(1))), true) {
        Placement::Refused(r) => assert!(r.starts_with("point_cloud.frame claims EPSG:32633 and the file declares")),
        other => panic!("{other:?}"),
    }
    match placement(Some(32632), Some(&utm(true, None)), true) {
        Placement::Refused(r) => assert!(r.ends_with("so they cannot be scaled to metres")),
        other => panic!("{other:?}"),
    }
}

#[test]
fn the_backend_resolves_once_from_the_probe() {
    let mut b = FusionBackend::new();
    b.resolve(GpuProbe::NoAdapter);
    assert_eq!(b, FusionBackend::Cpu { reason: "no suitable GPU adapter".into() });
    b.resolve(GpuProbe::Ready);
    assert_eq!(b, FusionBackend::Cpu { reason: "no suitable GPU adapter".into() }, "resolved once");
    let mut g = FusionBackend::new();
    g.resolve(GpuProbe::Ready);
    assert!(g.is_gpu());
}
