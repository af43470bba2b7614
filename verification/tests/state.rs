use gungnir_app::requirements::{AssetPriority, CollectionRequirement, Recovered, RequirementState};
use gungnir_app::state::{
    account_listing_refusal, account_store, baseline_objection_alert, identity_partial_alert, ungoverned_alert, encryption_step, ephemeral_encryption, interrupted_session_alerts,
    keystore_encryption, launch_warnings_alert, recovered_outage_alert, requirement_serial, requirements_alert,
    signed, AccountStore, AuthenticationProvider, EarlierSession, EncryptionStatus, EncryptionStep, KeyProvider,
    KeystoreOpening,
};

#[test]
fn a_count_saturates_rather_than_wrapping() {
    assert_eq!(signed(0), 0);
    assert_eq!(signed(12), 12);
    assert_eq!(signed(usize::MAX), i64::MAX);
}

#[test]
fn unclosed_and_unreadable_sessions_are_said() {
    let listed = Ok(vec![
        EarlierSession { session: 3, interrupted: Ok(false) },
        EarlierSession { session: 4, interrupted: Ok(true) },
        EarlierSession { session: 5, interrupted: Err("bad record".into()) },
    ]);
    assert_eq!(
        interrupted_session_alerts(&listed),
        vec![
            "Session 4 was not closed; its record ends where the process stopped".to_string(),
            "Session 5 could not be read (bad record)".to_string(),
        ]
    );
    assert_eq!(
        interrupted_session_alerts(&Err("io".into())),
        vec!["Earlier sessions could not be listed (io); whether any were left unclosed is unknown".to_string()]
    );
}

#[test]
fn encryption_says_what_each_provider_means() {
    assert_eq!(
        encryption_step(&KeyProvider::NoProvider),
        EncryptionStep::Settled { status: EncryptionStatus::NotConfigured, alert: None }
    );
    assert_eq!(encryption_step(&KeyProvider::Ephemeral), EncryptionStep::SealEphemeral);
    assert_eq!(
        encryption_step(&KeyProvider::OperatingSystemKeystore { account: "desk".into() }),
        EncryptionStep::OpenOsKeystore { account: "desk".into() }
    );
    match encryption_step(&KeyProvider::ManagedService) {
        EncryptionStep::Settled { status: EncryptionStatus::UnavailableWritingPlaintext { reason }, alert: Some(a) } => {
            assert!(reason.starts_with("a managed key service is the cloud node's custody row"));
            assert_eq!(a, format!("Journal encryption is off: {reason}"));
        }
        other => panic!("{other:?}"),
    }
    let (status, alert) = ephemeral_encryption();
    assert_eq!(status, EncryptionStatus::Active { provider: "ephemeral".into() });
    assert!(alert.contains("cannot be read after the application closes"));
}

#[test]
fn a_keystore_that_did_not_open_leaves_the_journal_in_plaintext_and_says_so() {
    assert_eq!(
        keystore_encryption(&KeystoreOpening::NotOpened { error: "locked".into() }),
        (
            EncryptionStatus::UnavailableWritingPlaintext {
                reason: "the operating-system keystore did not open: locked".into()
            },
            Some("Journal encryption is off: the operating-system keystore did not open: locked".into())
        )
    );
    assert_eq!(
        keystore_encryption(&KeystoreOpening::Sealed),
        (EncryptionStatus::Active { provider: "os-keystore".into() }, None)
    );
}

#[test]
fn nobody_signs_in_without_a_readable_local_store() {
    assert_eq!(account_listing_refusal(&AuthenticationProvider::NoAccounts), Some("no account store is configured".into()));
    assert_eq!(
        account_listing_refusal(&AuthenticationProvider::LocalAccounts { accounts_path: "accounts.json".into() }),
        None
    );
    let local = AuthenticationProvider::LocalAccounts { accounts_path: "accounts.json".into() };
    assert_eq!(account_store(&local, &Ok(())), (AccountStore::Opened, None));
    assert_eq!(
        account_store(&local, &Err("missing".into())),
        (
            AccountStore::Unavailable { reason: "missing".into() },
            Some("The account store could not be read; nobody can sign in: missing".into())
        )
    );
}

#[test]
fn the_requirement_serial_continues_past_the_highest_recovered() {
    let req = |id: u64| CollectionRequirement {
        id,
        title: String::new(),
        priority: AssetPriority::Low,
        state: RequirementState::Stated,
    };
    assert_eq!(requirement_serial(&[req(3), req(9), req(4)]), 9);
    assert_eq!(requirement_serial(&[]), 0);
}

#[test]
fn a_recovery_that_fell_short_is_an_alert() {
    assert_eq!(
        requirements_alert(&Recovered::Unreadable { reason: "session 2: bad".into() }),
        Some("Collection requirements could not be recovered (session 2: bad); whether any are outstanding is unknown".into())
    );
    assert_eq!(requirements_alert(&Recovered::NothingStated), None);
    assert_eq!(
        launch_warnings_alert(&gungnir_app::launch_warning::Recovered::Unreadable { reason: "x".into() }),
        Some("Issued launch warnings could not be recovered (x); what this deployment has already declared is unknown".into())
    );
    assert!(recovered_outage_alert("https://node:8443").starts_with("Recovered an unfinished outage of node https://node:8443"));
}

#[test]
fn the_start_up_alerts_say_what_the_desktop_started_without() {
    assert_eq!(
        identity_partial_alert(&Some("session 4: torn write".to_string())).as_deref(),
        Some("cross-session identity is partial: session 4: torn write")
    );
    assert_eq!(identity_partial_alert(&None), None);
    assert_eq!(
        ungoverned_alert(Some("the promoted baseline names no filter")).as_deref(),
        Some("No algorithm configuration is in force (the promoted baseline names no filter); this deployment is not governing which filter it runs")
    );
    assert_eq!(ungoverned_alert(None), None);
    assert_eq!(
        baseline_objection_alert(Some("origin missing")).as_deref(),
        Some("This session is running under a baseline that did not validate (origin missing); decisions taken now carry that objection")
    );
    assert_eq!(baseline_objection_alert(None), None);
}
