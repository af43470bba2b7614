use gungnir_app::journal::SessionRead;
use gungnir_app::launch_warning::{declare, recover, Declaration, LaunchWarningError, Recovered};

#[test]
fn a_warning_is_declared_in_the_operators_words_under_the_next_serial() {
    let mut serial = 4;
    let declared = declare(true, "  two missiles, bearing north \n", &mut serial);
    assert_eq!(
        declared,
        Ok(Declaration { id: "launch-warning-5".into(), what: "two missiles, bearing north".into() })
    );
    assert_eq!(serial, 5);
}

#[test]
fn a_role_that_may_not_release_is_refused_and_no_serial_is_spent() {
    let mut serial = 4;
    assert_eq!(declare(false, "a launch", &mut serial), Err(LaunchWarningError::Forbidden));
    assert_eq!(serial, 4);
    assert_eq!(
        LaunchWarningError::Forbidden.message(),
        "operator lacks permission to release a launch warning"
    );
}

#[test]
fn a_blank_description_is_refused() {
    let mut serial = 0;
    assert_eq!(declare(true, " \t\n ", &mut serial), Err(LaunchWarningError::EmptyDescription));
    assert_eq!(declare(true, "", &mut serial), Err(LaunchWarningError::EmptyDescription));
    assert_eq!(serial, 0);
    assert_eq!(
        LaunchWarningError::EmptyDescription.message(),
        "a launch warning needs a non-empty description of what launched"
    );
}

#[test]
fn recovery_appends_every_issued_warning_oldest_session_first() {
    let journal = vec![
        SessionRead { session: 9, events: Ok(vec![Some("c"), None]) },
        SessionRead { session: 3, events: Ok(vec![Some("a"), None, Some("b")]) },
    ];
    let (issued, outcome) = recover(Ok(journal));
    assert_eq!(issued, vec!["a", "b", "c"]);
    assert_eq!(outcome, Recovered::FromJournal { sessions: 2 });
}

#[test]
fn an_unreadable_session_is_said_and_what_came_before_it_kept() {
    let journal = vec![
        SessionRead { session: 2, events: Ok(vec![Some(1u8)]) },
        SessionRead { session: 5, events: Err("checksum".into()) },
        SessionRead { session: 7, events: Ok(vec![Some(2u8)]) },
    ];
    let (issued, outcome) = recover(Ok(journal));
    assert_eq!(issued, vec![1u8]);
    assert_eq!(outcome, Recovered::Unreadable { reason: "session 5: checksum".into() });
}

#[test]
fn an_empty_journal_issued_nothing_and_an_unlisted_one_is_unknown() {
    let (issued, outcome) = recover::<u8>(Ok(vec![SessionRead { session: 1, events: Ok(vec![None]) }]));
    assert!(issued.is_empty());
    assert_eq!(outcome, Recovered::NothingIssued);
    let (issued, outcome) = recover::<u8>(Err("no journal directory".into()));
    assert!(issued.is_empty());
    assert_eq!(outcome, Recovered::Unreadable { reason: "no journal directory".into() });
}
