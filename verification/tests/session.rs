use gungnir_app::session::{
    account_lines, assigned, assignment, connect_alert, expiry_due, parse_operator, role_name, role_named,
    sign_in_alert, sign_in_operator, sign_out_alert, Role,
};

#[test]
fn every_role_is_named_as_the_record_writes_it() {
    for role in [
        Role::Operator,
        Role::Supervisor,
        Role::Analyst,
        Role::SensorManager,
        Role::Administrator,
        Role::Commander,
        Role::Planner,
        Role::SecurityOfficer,
        Role::IntelligenceAnalyst,
    ] {
        assert_eq!(role_named(role_name(role)), Some(role));
        assert_eq!(role_name(role), format!("{role:?}"));
    }
    assert_eq!(role_named("operator"), None);
}

#[test]
fn a_role_assignment_is_refused_by_what_it_lacks() {
    assert_eq!(
        assignment(false, Role::Operator, "account.assign_role", "Supervisor", true),
        Err("role assignment refused: Operator does not hold account.assign_role".into())
    );
    assert_eq!(
        assignment(true, Role::Administrator, "a", "Emperor", true),
        Err("role assignment refused: \"Emperor\" is not a role".into())
    );
    assert_eq!(
        assignment(true, Role::Administrator, "a", "Planner", false),
        Err("role assignment refused: no account store is configured".into())
    );
    assert_eq!(assignment(true, Role::Administrator, "a", "Planner", true), Ok(Role::Planner));
    assert_eq!(
        assigned(12, Role::Planner),
        ("operator 12 assigned Planner".to_string(), "operator 12 is now Planner".to_string())
    );
}

#[test]
fn an_operator_identifier_is_a_number() {
    assert_eq!(sign_in_operator(" 42 "), Ok(42));
    assert_eq!(sign_in_operator("+7"), Ok(7));
    assert_eq!(sign_in_operator("4x2"), Err("sign-in refused: the operator identifier is a number"));
    assert_eq!(sign_in_operator(""), Err("sign-in refused: the operator identifier is a number"));
    assert_eq!(parse_operator("18446744073709551615"), Some(u64::MAX));
    assert_eq!(parse_operator("18446744073709551616"), None);
    assert_eq!(parse_operator("+"), None);
    assert_eq!(parse_operator("-1"), None);
}

#[test]
fn signing_in_and_out_is_said() {
    assert_eq!(sign_in_alert(Ok((7, Role::Supervisor))), "signed in as operator 7 (Supervisor)");
    assert_eq!(sign_in_alert(Err("rate limited")), "sign-in refused: rate limited");
    assert_eq!(sign_out_alert(Some(7)), Some("operator 7 signed out".into()));
    assert_eq!(sign_out_alert(None), None);
    assert_eq!(connect_alert("https://n:8443", Ok(())), "connected to node https://n:8443; running remote");
    assert_eq!(
        connect_alert("https://n:8443", Err("refused")),
        "could not reach node https://n:8443: refused; running embedded"
    );
}

#[test]
fn an_expired_session_is_announced_once() {
    let mut announced = None;
    assert!(expiry_due(&mut announced, Some(7)));
    assert!(!expiry_due(&mut announced, Some(7)));
    assert!(!expiry_due(&mut announced, None));
    assert_eq!(announced, None);
    assert!(expiry_due(&mut announced, Some(7)));
}

#[test]
fn accounts_are_listed_with_their_role_names() {
    assert_eq!(
        account_lines(&Ok(vec![(1, Role::Operator), (2, Role::Commander)])),
        vec![(1, "Operator".to_string()), (2, "Commander".to_string())]
    );
    assert!(account_lines(&Err("unreadable".into())).is_empty());
}
