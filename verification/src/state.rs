//! What the desktop decides while it starts: how journal encryption stands for the key
//! provider the baseline names, whether anybody can sign in, which earlier sessions were
//! left unclosed, and what it says when a recovery from the journal falls short.
//!
//! A process that stopped is a fact about yesterday, not a reason to refuse to start
//! today; what must not happen is silence. Every fallback here is therefore an alert.

use vstd::prelude::*;
use crate::text::{decimal, push_decimal, push_str};
use crate::requirements::CollectionRequirement;

verus! {

/// A count as a signed number, for a difference between two counts. Saturates rather
/// than wrapping.
pub fn signed(n: usize) -> (s: i64)
    ensures
        s == if n > i64::MAX { i64::MAX as int } else { n as int },
{
    let m: u64 = n as u64;
    if m > 9_223_372_036_854_775_807u64 {
        i64::MAX
    } else {
        m as i64
    }
}

/// One earlier session as the mission record lists it: whether it was left unclosed, or
/// why it could not be read.
#[derive(Debug, PartialEq, Eq)]
pub struct EarlierSession {
    pub session: u64,
    pub interrupted: Result<bool, String>,
}

/// The alert for one earlier session, if it needs one.
pub open spec fn session_alert(s: EarlierSession) -> Option<Seq<char>> {
    match s.interrupted {
        Ok(true) => Some("Session "@ + decimal(s.session as nat) + " was not closed; its record ends where the process stopped"@),
        Ok(false) => None,
        Err(e) => Some("Session "@ + decimal(s.session as nat) + " could not be read ("@ + e@ + ")"@),
    }
}

/// The alerts for a list of earlier sessions, in order.
pub open spec fn session_alerts(sessions: Seq<EarlierSession>) -> Seq<Seq<char>>
    decreases sessions.len(),
{
    if sessions.len() == 0 {
        Seq::empty()
    } else {
        let before = session_alerts(sessions.drop_last());
        match session_alert(sessions.last()) {
            Some(a) => before.push(a),
            None => before,
        }
    }
}

/// The text of each alert.
pub open spec fn texts(alerts: Seq<String>) -> Seq<Seq<char>> {
    alerts.map_values(|a: String| a@)
}

/// Tell the operator about sessions the last run did not close. `recorded` is the
/// mission record's list of earlier sessions, or why it could not be listed.
pub fn interrupted_session_alerts(recorded: &Result<Vec<EarlierSession>, String>) -> (alerts: Vec<String>)
    ensures
        match recorded {
            Err(e) => texts(alerts@) == seq!["Earlier sessions could not be listed ("@ + e@
                + "); whether any were left unclosed is unknown"@],
            Ok(sessions) => texts(alerts@) == session_alerts(sessions@),
        },
{
    let mut alerts: Vec<String> = Vec::new();
    match recorded {
        Err(e) => {
            let mut a = String::from_str("Earlier sessions could not be listed (");
            push_str(&mut a, e.as_str());
            push_str(&mut a, "); whether any were left unclosed is unknown");
            alerts.push(a);
            assert(texts(alerts@) =~= seq![a@]);
        },
        Ok(sessions) => {
            let mut i: usize = 0;
            while i < sessions.len()
                invariant
                    i <= sessions@.len(),
                    texts(alerts@) == session_alerts(sessions@.take(i as int)),
                decreases sessions@.len() - i,
            {
                proof {
                    assert(sessions@.take(i + 1).drop_last() =~= sessions@.take(i as int));
                    assert(sessions@.take(i + 1).last() == sessions@[i as int]);
                }
                let s = &sessions[i];
                match &s.interrupted {
                    Ok(true) => {
                        let mut a = String::from_str("Session ");
                        push_decimal(&mut a, s.session);
                        push_str(&mut a, " was not closed; its record ends where the process stopped");
                        let ghost before = alerts@;
                        alerts.push(a);
                        assert(texts(alerts@) =~= texts(before).push(a@));
                    },
                    Ok(false) => {},
                    Err(e) => {
                        let mut a = String::from_str("Session ");
                        push_decimal(&mut a, s.session);
                        push_str(&mut a, " could not be read (");
                        push_str(&mut a, e.as_str());
                        push_str(&mut a, ")");
                        let ghost before = alerts@;
                        alerts.push(a);
                        assert(texts(alerts@) =~= texts(before).push(a@));
                    },
                }
                i = i + 1;
            }
            assert(sessions@.take(sessions@.len() as int) =~= sessions@);
        },
    }
    alerts
}

/// The key provider the baseline names for journal encryption.
#[derive(Debug, Clone, PartialEq, Eq)]
pub enum KeyProvider {
    NoProvider,
    PassphraseSealedFile,
    Ephemeral,
    OperatingSystemKeystore { account: String },
    ManagedService,
}

/// How journal encryption stands.
#[derive(Debug, Clone, PartialEq, Eq)]
pub enum EncryptionStatus {
    NotConfigured,
    UnavailableWritingPlaintext { reason: String },
    Active { provider: String },
}

/// Whether `status` is encryption off, writing plaintext, for the reason `text`.
pub open spec fn unavailable(status: EncryptionStatus, text: Seq<char>) -> bool {
    status matches EncryptionStatus::UnavailableWritingPlaintext { reason } && reason@ == text
}

/// Whether `status` is encryption in force under the provider named `text`.
pub open spec fn active(status: EncryptionStatus, text: Seq<char>) -> bool {
    status matches EncryptionStatus::Active { provider } && provider@ == text
}

/// Whether `alert` is raised, reading `text`.
pub open spec fn says(alert: Option<String>, text: Seq<char>) -> bool {
    alert matches Some(a) && a@ == text
}

/// What starting journal encryption takes: nothing more, a fresh key held in this process,
/// or the operating system's keystore opened under an account.
#[derive(Debug, Clone, PartialEq, Eq)]
pub enum EncryptionStep {
    Settled { status: EncryptionStatus, alert: Option<String> },
    SealEphemeral,
    OpenOsKeystore { account: String },
}

/// Why a managed key service is refused on this desktop.
pub open spec fn managed_service_reason() -> Seq<char> {
    "a managed key service is the cloud node's custody row (DN-22 §5), not the desktop's; this desktop's row is the operating system's keystore"@
}

/// What starting journal encryption takes for `provider`. Without a provider the journal
/// is not encrypted; a passphrase-sealed keystore opens only at sign-in, so until then the
/// journal is written in plaintext and the status says so; a managed key service belongs
/// to the cloud node and is refused with an alert.
pub fn encryption_step(provider: &KeyProvider) -> (step: EncryptionStep)
    ensures
        match *provider {
            KeyProvider::NoProvider => step == (EncryptionStep::Settled { status: EncryptionStatus::NotConfigured, alert: None }),
            KeyProvider::PassphraseSealedFile => step matches EncryptionStep::Settled { status, alert: None }
                && unavailable(status, "the keystore is sealed under the operator's passphrase and opens at sign-in; nobody has signed in"@),
            KeyProvider::Ephemeral => step == EncryptionStep::SealEphemeral,
            KeyProvider::OperatingSystemKeystore { account } => step matches EncryptionStep::OpenOsKeystore { account: a } && a@ == account@,
            KeyProvider::ManagedService => step matches EncryptionStep::Settled { status, alert }
                && unavailable(status, managed_service_reason())
                && says(alert, "Journal encryption is off: "@ + managed_service_reason()),
        },
{
    match provider {
        KeyProvider::NoProvider => EncryptionStep::Settled { status: EncryptionStatus::NotConfigured, alert: None },
        KeyProvider::PassphraseSealedFile => EncryptionStep::Settled {
            status: EncryptionStatus::UnavailableWritingPlaintext {
                reason: String::from_str("the keystore is sealed under the operator's passphrase and opens at sign-in; nobody has signed in"),
            },
            alert: None,
        },
        KeyProvider::Ephemeral => EncryptionStep::SealEphemeral,
        KeyProvider::OperatingSystemKeystore { account } => EncryptionStep::OpenOsKeystore { account: account.clone() },
        KeyProvider::ManagedService => {
            let reason = String::from_str("a managed key service is the cloud node's custody row (DN-22 §5), not the desktop's; this desktop's row is the operating system's keystore");
            let mut alert = String::from_str("Journal encryption is off: ");
            push_str(&mut alert, reason.as_str());
            proof {
                reveal_strlit("a managed key service is the cloud node's custody row (DN-22 §5), not the desktop's; this desktop's row is the operating system's keystore");
            }
            EncryptionStep::Settled { status: EncryptionStatus::UnavailableWritingPlaintext { reason }, alert: Some(alert) }
        },
    }
}

/// How journal encryption stands once an ephemeral key seals it, and the alert that says
/// out loud what that costs: the journal is real ciphertext nothing will read again.
pub fn ephemeral_encryption() -> (settled: (EncryptionStatus, String))
    ensures
        active(settled.0, "ephemeral"@),
        settled.1@ == "Journal encryption is using an ephemeral key: this session's journal cannot be read after the application closes."@,
{
    (
        EncryptionStatus::Active { provider: String::from_str("ephemeral") },
        String::from_str("Journal encryption is using an ephemeral key: this session's journal cannot be read after the application closes."),
    )
}

/// How opening the operating system's keystore went: it did not open, it opened with no
/// journal key to be had, or the journal is sealed under its key.
#[derive(Debug, Clone, PartialEq, Eq)]
pub enum KeystoreOpening {
    NotOpened { error: String },
    NoKey { error: String },
    Sealed,
}

/// How journal encryption stands after the keystore was tried, and the alert when it is
/// off.
pub fn keystore_encryption(opening: &KeystoreOpening) -> (settled: (EncryptionStatus, Option<String>))
    ensures
        match *opening {
            KeystoreOpening::NotOpened { error } => {
                &&& unavailable(settled.0, "the operating-system keystore did not open: "@ + error@)
                &&& says(settled.1, "Journal encryption is off: "@ + "the operating-system keystore did not open: "@ + error@)
            },
            KeystoreOpening::NoKey { error } => {
                &&& unavailable(settled.0, "no journal key: "@ + error@)
                &&& says(settled.1, "Journal encryption is off: "@ + "no journal key: "@ + error@)
            },
            KeystoreOpening::Sealed => settled.1 is None && active(settled.0, "os-keystore"@),
        },
{
    let reason = match opening {
        KeystoreOpening::Sealed => return (EncryptionStatus::Active { provider: String::from_str("os-keystore") }, None),
        KeystoreOpening::NotOpened { error } => {
            let mut r = String::from_str("the operating-system keystore did not open: ");
            push_str(&mut r, error.as_str());
            r
        },
        KeystoreOpening::NoKey { error } => {
            let mut r = String::from_str("no journal key: ");
            push_str(&mut r, error.as_str());
            r
        },
    };
    let mut alert = String::from_str("Journal encryption is off: ");
    push_str(&mut alert, reason.as_str());
    proof {
        match opening {
            KeystoreOpening::NotOpened { error } => {
                assert(alert@ =~= "Journal encryption is off: "@ + "the operating-system keystore did not open: "@ + error@);
            },
            KeystoreOpening::NoKey { error } => {
                assert(alert@ =~= "Journal encryption is off: "@ + "no journal key: "@ + error@);
            },
            KeystoreOpening::Sealed => {},
        }
    }
    (EncryptionStatus::UnavailableWritingPlaintext { reason }, Some(alert))
}

/// The account provider the baseline names.
#[derive(Debug, Clone, PartialEq, Eq)]
pub enum AuthenticationProvider {
    NoAccounts,
    LocalAccounts { accounts_path: String },
    OsKeystoreAccounts,
}

/// Why PN-20 has no accounts to list for `provider`, or `None` for local accounts, which
/// are read from their file.
pub fn account_listing_refusal(provider: &AuthenticationProvider) -> (refusal: Option<String>)
    ensures
        match *provider {
            AuthenticationProvider::NoAccounts => refusal matches Some(r) && r@ == "no account store is configured"@,
            AuthenticationProvider::LocalAccounts { .. } => refusal is None,
            AuthenticationProvider::OsKeystoreAccounts => refusal matches Some(r)
                && r@ == "the operating-system-keystore account provider is for gungnir-node; the desktop uses local-accounts or no accounts (DN-23 §5)"@,
        },
{
    match provider {
        AuthenticationProvider::NoAccounts => Some(String::from_str("no account store is configured")),
        AuthenticationProvider::LocalAccounts { .. } => None,
        AuthenticationProvider::OsKeystoreAccounts => Some(String::from_str(
            "the operating-system-keystore account provider is for gungnir-node; the desktop uses local-accounts or no accounts (DN-23 §5)",
        )),
    }
}

/// The account store sign-in goes through: readable, or unavailable for the reason given.
/// The desktop starts either way.
#[derive(Debug, Clone, PartialEq, Eq)]
pub enum AccountStore {
    Opened,
    Unavailable { reason: String },
}

/// Whether `store` is unavailable for the reason `text`.
pub open spec fn store_unavailable(store: AccountStore, text: Seq<char>) -> bool {
    store matches AccountStore::Unavailable { reason } && reason@ == text
}

/// The account store for `provider`, and the alert when nobody can sign in for a reason
/// an operator did not choose. `opened` is how reading the local accounts file went, and
/// is consulted for local accounts only.
pub fn account_store(provider: &AuthenticationProvider, opened: &Result<(), String>) -> (store: (AccountStore, Option<String>))
    ensures
        match *provider {
            AuthenticationProvider::NoAccounts => store.1 is None
                && store_unavailable(store.0, "no account store is configured for this deployment"@),
            AuthenticationProvider::LocalAccounts { .. } => match *opened {
                Ok(()) => store == (AccountStore::Opened, None::<String>),
                Err(e) => store_unavailable(store.0, e@)
                    && says(store.1, "The account store could not be read; nobody can sign in: "@ + e@),
            },
            AuthenticationProvider::OsKeystoreAccounts => {
                &&& store_unavailable(store.0, "the operating-system-keystore account provider is for gungnir-node"@)
                &&& says(store.1, "The operating-system-keystore account provider is for gungnir-node; nobody can sign in to this desktop until local-accounts is configured instead (DN-23 §5)."@)
            },
        },
{
    match provider {
        AuthenticationProvider::NoAccounts => (
            AccountStore::Unavailable { reason: String::from_str("no account store is configured for this deployment") },
            None,
        ),
        AuthenticationProvider::LocalAccounts { .. } => match opened {
            Ok(()) => (AccountStore::Opened, None),
            Err(e) => {
                let mut alert = String::from_str("The account store could not be read; nobody can sign in: ");
                push_str(&mut alert, e.as_str());
                (AccountStore::Unavailable { reason: e.clone() }, Some(alert))
            },
        },
        AuthenticationProvider::OsKeystoreAccounts => (
            AccountStore::Unavailable {
                reason: String::from_str("the operating-system-keystore account provider is for gungnir-node"),
            },
            Some(String::from_str(
                "The operating-system-keystore account provider is for gungnir-node; nobody can sign in to this desktop until local-accounts is configured instead (DN-23 §5).",
            )),
        ),
    }
}

/// The highest identifier among `reqs`, or 0 for none.
pub open spec fn highest_id(reqs: Seq<CollectionRequirement>) -> u64
    decreases reqs.len(),
{
    if reqs.len() == 0 {
        0
    } else {
        let rest = highest_id(reqs.drop_last());
        if reqs.last().id > rest { reqs.last().id } else { rest }
    }
}

/// The highest identifier is one the list holds and no identifier in the list exceeds it,
/// so the serial continues from the newest requirement, not past some made-up number.
pub proof fn the_serial_continues_from_the_newest(reqs: Seq<CollectionRequirement>)
    ensures
        forall|k: int| 0 <= k < reqs.len() ==> reqs[k].id <= highest_id(reqs),
        reqs.len() > 0 ==> exists|k: int| 0 <= k < reqs.len() && reqs[k].id == highest_id(reqs),
        reqs.len() == 0 ==> highest_id(reqs) == 0,
    decreases reqs.len(),
{
    if reqs.len() > 0 {
        let prev = reqs.drop_last();
        the_serial_continues_from_the_newest(prev);
        assert forall|k: int| 0 <= k < reqs.len() implies reqs[k].id <= highest_id(reqs) by {
            if k < prev.len() {
                assert(prev[k] == reqs[k]);
            }
        }
        if reqs.last().id <= highest_id(prev) && prev.len() > 0 {
            let k = choose|k: int| 0 <= k < prev.len() && prev[k].id == highest_id(prev);
            assert(reqs[k] == prev[k]);
        }
        assert(reqs[reqs.len() - 1] == reqs.last());
    }
}

/// The requirement serial to continue from: past the highest recovered identifier, so a
/// new requirement cannot collide with an old one.
pub fn requirement_serial(reqs: &[CollectionRequirement]) -> (next: u64)
    ensures
        next == highest_id(reqs@),
        forall|k: int| 0 <= k < reqs@.len() ==> reqs@[k].id <= next,
{
    let mut next: u64 = 0;
    let mut i: usize = 0;
    while i < reqs.len()
        invariant
            i <= reqs@.len(),
            next == highest_id(reqs@.take(i as int)),
            forall|k: int| 0 <= k < i ==> reqs@[k].id <= next,
        decreases reqs@.len() - i,
    {
        proof {
            assert(reqs@.take(i + 1).drop_last() =~= reqs@.take(i as int));
            assert(reqs@.take(i + 1).last() == reqs@[i as int]);
        }
        if reqs[i].id > next {
            next = reqs[i].id;
        }
        i = i + 1;
    }
    assert(reqs@.take(reqs@.len() as int) =~= reqs@);
    next
}

/// The alert when requirements could not be recovered, since whether any are outstanding
/// is then unknown.
pub fn requirements_alert(recovered: &crate::requirements::Recovered) -> (alert: Option<String>)
    ensures
        match *recovered {
            crate::requirements::Recovered::Unreadable { reason } => alert matches Some(a)
                && a@ == "Collection requirements could not be recovered ("@ + reason@ + "); whether any are outstanding is unknown"@,
            _ => alert is None,
        },
{
    match recovered {
        crate::requirements::Recovered::Unreadable { reason } => {
            let mut a = String::from_str("Collection requirements could not be recovered (");
            push_str(&mut a, reason.as_str());
            push_str(&mut a, "); whether any are outstanding is unknown");
            Some(a)
        },
        _ => None,
    }
}

/// The alert when issued launch warnings could not be recovered, since what this
/// deployment has already declared is then unknown.
pub fn launch_warnings_alert(recovered: &crate::launch_warning::Recovered) -> (alert: Option<String>)
    ensures
        match *recovered {
            crate::launch_warning::Recovered::Unreadable { reason } => alert matches Some(a)
                && a@ == "Issued launch warnings could not be recovered ("@ + reason@ + "); what this deployment has already declared is unknown"@,
            _ => alert is None,
        },
{
    match recovered {
        crate::launch_warning::Recovered::Unreadable { reason } => {
            let mut a = String::from_str("Issued launch warnings could not be recovered (");
            push_str(&mut a, reason.as_str());
            push_str(&mut a, "); what this deployment has already declared is unknown");
            Some(a)
        },
        _ => None,
    }
}

/// The alert for an unfinished outage recovered from the journal: the desktop is cut off,
/// not newly started.
pub fn recovered_outage_alert(endpoint: &str) -> (alert: String)
    ensures
        alert@ == "Recovered an unfinished outage of node "@ + endpoint@
            + " from the journal: this desktop is cut off, not newly started, and stays on its own services until a person switches back on PN-18"@,
{
    let mut a = String::from_str("Recovered an unfinished outage of node ");
    push_str(&mut a, endpoint);
    push_str(&mut a, " from the journal: this desktop is cut off, not newly started, and stays on its own services until a person switches back on PN-18");
    a
}

/// The alert when the fold of earlier sessions stopped short, so that cross-session
/// identity rests on part of what was seen.
pub fn identity_partial_alert(unreadable: &Option<String>) -> (alert: Option<String>)
    ensures
        match *unreadable {
            Some(reason) => alert matches Some(a) && a@ == "cross-session identity is partial: "@ + reason@,
            None => alert is None,
        },
{
    match unreadable {
        Some(reason) => {
            let mut a = String::from_str("cross-session identity is partial: ");
            push_str(&mut a, reason.as_str());
            Some(a)
        },
        None => None,
    }
}

/// The alert when the registry of algorithm configurations could not be built, so the
/// deployment governs nothing.
pub fn ungoverned_alert(unavailable: Option<&str>) -> (alert: Option<String>)
    ensures
        match unavailable {
            Some(reason) => alert matches Some(a) && a@ == "No algorithm configuration is in force ("@ + reason@
                + "); this deployment is not governing which filter it runs"@,
            None => alert is None,
        },
{
    match unavailable {
        Some(reason) => {
            let mut a = String::from_str("No algorithm configuration is in force (");
            push_str(&mut a, reason);
            push_str(&mut a, "); this deployment is not governing which filter it runs");
            Some(a)
        },
        None => None,
    }
}

/// The alert when the session opens under a baseline that did not validate: the desktop
/// starts, but not quietly.
pub fn baseline_objection_alert(objection: Option<&str>) -> (alert: Option<String>)
    ensures
        match objection {
            Some(o) => alert matches Some(a) && a@ == "This session is running under a baseline that did not validate ("@ + o@
                + "); decisions taken now carry that objection"@,
            None => alert is None,
        },
{
    match objection {
        Some(o) => {
            let mut a = String::from_str("This session is running under a baseline that did not validate (");
            push_str(&mut a, o);
            push_str(&mut a, "); decisions taken now carry that objection");
            Some(a)
        },
        None => None,
    }
}

} // verus!
