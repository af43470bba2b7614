//! The passphrase-sealed keystore opened at sign-in, and the escrow of journal keys.
//!
//! Until somebody signs in the journal is written in plaintext and the status says so;
//! the keystore opens once, and every failure to open it, or to escrow a key, is said.

use vstd::prelude::*;
use crate::state::{active, unavailable, EncryptionStatus, KeyProvider, KeystoreOpening};
use crate::text::{decimal, push_decimal, push_str};

verus! {

/// The file an escrowed journal key's record is written to.
pub fn escrow_record_name(version: u32) -> (name: String)
    ensures
        name@ == "escrow-journal-v"@ + decimal(version as nat) + ".json"@,
{
    let mut n = String::from_str("escrow-journal-v");
    push_decimal(&mut n, version as u64);
    push_str(&mut n, ".json");
    n
}

/// Whether a sign-in should open the keystore: the baseline seals it under the operator's
/// passphrase and it is not open yet.
pub fn unlock_due(provider: &KeyProvider, keystore_open: bool) -> (due: bool)
    ensures
        due == (*provider == KeyProvider::PassphraseSealedFile && !keystore_open),
{
    match provider {
        KeyProvider::PassphraseSealedFile => !keystore_open,
        _ => false,
    }
}

/// How journal encryption stands after the keystore was tried at sign-in, and the alert
/// that says so.
pub fn passphrase_unlock(opening: &KeystoreOpening) -> (settled: (EncryptionStatus, String))
    ensures
        match *opening {
            KeystoreOpening::NotOpened { error } => {
                &&& unavailable(settled.0, "the keystore did not open: "@ + error@)
                &&& settled.1@ == "journal encryption is off: the keystore did not open ("@ + error@ + ")"@
            },
            KeystoreOpening::NoKey { error } => {
                &&& unavailable(settled.0, "no journal key: "@ + error@)
                &&& settled.1@ == "journal encryption is off: no journal key ("@ + error@ + ")"@
            },
            KeystoreOpening::Sealed => {
                &&& active(settled.0, "passphrase-sealed keystore"@)
                &&& settled.1@ == "keystore opened at sign-in; the journal seals from here on (earlier lines are as they were written)"@
            },
        },
{
    match opening {
        KeystoreOpening::NotOpened { error } => {
            let mut reason = String::from_str("the keystore did not open: ");
            push_str(&mut reason, error.as_str());
            let mut alert = String::from_str("journal encryption is off: the keystore did not open (");
            push_str(&mut alert, error.as_str());
            push_str(&mut alert, ")");
            (EncryptionStatus::UnavailableWritingPlaintext { reason }, alert)
        },
        KeystoreOpening::NoKey { error } => {
            let mut reason = String::from_str("no journal key: ");
            push_str(&mut reason, error.as_str());
            let mut alert = String::from_str("journal encryption is off: no journal key (");
            push_str(&mut alert, error.as_str());
            push_str(&mut alert, ")");
            (EncryptionStatus::UnavailableWritingPlaintext { reason }, alert)
        },
        KeystoreOpening::Sealed => (
            EncryptionStatus::Active { provider: String::from_str("passphrase-sealed keystore") },
            String::from_str("keystore opened at sign-in; the journal seals from here on (earlier lines are as they were written)"),
        ),
    }
}

/// The alert for an escrow public key the baseline names and that cannot be used.
pub fn unusable_escrow_key(error: &str) -> (alert: String)
    ensures
        alert@ == "the escrow public key in the baseline is unusable ("@ + error@ + "); journal keys will not be escrowed"@,
{
    let mut a = String::from_str("the escrow public key in the baseline is unusable (");
    push_str(&mut a, error);
    push_str(&mut a, "); journal keys will not be escrowed");
    a
}

/// How escrowing a journal key went: wrapping it failed, writing its record failed, or
/// its record was written to the path given.
#[derive(Debug, Clone, PartialEq, Eq)]
pub enum Escrow {
    NotWrapped { error: String },
    NotWritten { error: String },
    Written { path: String },
}

/// The alert that says how escrowing journal key `version` went.
pub fn escrow_alert(version: u32, escrow: &Escrow) -> (alert: String)
    ensures
        alert@ == match *escrow {
            Escrow::NotWrapped { error } => "escrow failed: "@ + error@,
            Escrow::NotWritten { error } => "the escrow record could not be written ("@ + error@
                + "); the journal key is not recoverable without this desktop"@,
            Escrow::Written { path } => "journal key v"@ + decimal(version as nat) + " escrowed to the security officer ("@
                + path@ + ")"@,
        },
{
    match escrow {
        Escrow::NotWrapped { error } => {
            let mut a = String::from_str("escrow failed: ");
            push_str(&mut a, error.as_str());
            a
        },
        Escrow::NotWritten { error } => {
            let mut a = String::from_str("the escrow record could not be written (");
            push_str(&mut a, error.as_str());
            push_str(&mut a, "); the journal key is not recoverable without this desktop");
            a
        },
        Escrow::Written { path } => {
            let mut a = String::from_str("journal key v");
            push_decimal(&mut a, version as u64);
            push_str(&mut a, " escrowed to the security officer (");
            push_str(&mut a, path.as_str());
            push_str(&mut a, ")");
            a
        },
    }
}

} // verus!
