use gungnir_app::keystore::{escrow_alert, escrow_record_name, passphrase_unlock, unlock_due, unusable_escrow_key, Escrow};
use gungnir_app::state::{EncryptionStatus, KeyProvider, KeystoreOpening};

#[test]
fn the_keystore_opens_once_and_only_when_sealed_by_passphrase() {
    assert!(unlock_due(&KeyProvider::PassphraseSealedFile, false));
    assert!(!unlock_due(&KeyProvider::PassphraseSealedFile, true));
    assert!(!unlock_due(&KeyProvider::Ephemeral, false));
}

#[test]
fn an_unlock_says_how_the_journal_stands() {
    assert_eq!(
        passphrase_unlock(&KeystoreOpening::NotOpened { error: "wrong passphrase".into() }),
        (
            EncryptionStatus::UnavailableWritingPlaintext { reason: "the keystore did not open: wrong passphrase".into() },
            "journal encryption is off: the keystore did not open (wrong passphrase)".into()
        )
    );
    let (status, alert) = passphrase_unlock(&KeystoreOpening::Sealed);
    assert_eq!(status, EncryptionStatus::Active { provider: "passphrase-sealed keystore".into() });
    assert!(alert.starts_with("keystore opened at sign-in"));
}

#[test]
fn escrow_is_named_and_said() {
    assert_eq!(escrow_record_name(3), "escrow-journal-v3.json");
    assert_eq!(
        escrow_alert(3, &Escrow::Written { path: "/d/escrow-journal-v3.json".into() }),
        "journal key v3 escrowed to the security officer (/d/escrow-journal-v3.json)"
    );
    assert_eq!(escrow_alert(3, &Escrow::NotWrapped { error: "no key".into() }), "escrow failed: no key");
    assert!(unusable_escrow_key("bad pem").contains("journal keys will not be escrowed"));
}
