//! The after-action review as the desktop runs it: the finding kinds as the panel, the
//! workflow and the bus name them, and what the desktop refuses and says.
//!
//! Nothing here is automatic: the system proposes no findings and scores nothing; it
//! assembles the record and holds what people concluded. Every refusal is an alert,
//! never silence.

use vstd::prelude::*;
use crate::text::{decimal, quoted_name, debug_string, push_decimal, push_str, trim, trimmed};
use crate::peers::{begins_with, starts_with};

verus! {

/// What a finding is about, as the review workflow keeps it.
#[derive(Debug, Clone, Copy, PartialEq, Eq, Structural)]
pub enum FindingKind {
    SystemBehaviour,
    Procedure,
    Practice,
    Configuration,
}

/// What a finding is about, as the reports panel offers it.
#[derive(Debug, Clone, Copy, PartialEq, Eq, Structural)]
pub enum FindingKindView {
    SystemBehaviour,
    Procedure,
    Practice,
    Configuration,
}

/// The panel's kind as the workflow keeps it.
pub open spec fn spec_kind_from_view(kind: FindingKindView) -> FindingKind {
    match kind {
        FindingKindView::SystemBehaviour => FindingKind::SystemBehaviour,
        FindingKindView::Procedure => FindingKind::Procedure,
        FindingKindView::Practice => FindingKind::Practice,
        FindingKindView::Configuration => FindingKind::Configuration,
    }
}

/// The workflow's kind as the panel shows it.
pub open spec fn spec_kind_to_view(kind: FindingKind) -> FindingKindView {
    match kind {
        FindingKind::SystemBehaviour => FindingKindView::SystemBehaviour,
        FindingKind::Procedure => FindingKindView::Procedure,
        FindingKind::Practice => FindingKindView::Practice,
        FindingKind::Configuration => FindingKindView::Configuration,
    }
}

/// The kind as the bus spells it: the workflow's kebab-case form.
pub open spec fn spec_kind_label(kind: FindingKind) -> Seq<char> {
    match kind {
        FindingKind::SystemBehaviour => "system-behaviour"@,
        FindingKind::Procedure => "procedure"@,
        FindingKind::Practice => "practice"@,
        FindingKind::Configuration => "configuration"@,
    }
}

/// The panel's kind as the workflow keeps it.
pub fn kind_from_view(kind: FindingKindView) -> (k: FindingKind)
    ensures
        k == spec_kind_from_view(kind),
{
    match kind {
        FindingKindView::SystemBehaviour => FindingKind::SystemBehaviour,
        FindingKindView::Procedure => FindingKind::Procedure,
        FindingKindView::Practice => FindingKind::Practice,
        FindingKindView::Configuration => FindingKind::Configuration,
    }
}

/// The workflow's kind as the panel shows it.
pub fn kind_to_view(kind: FindingKind) -> (v: FindingKindView)
    ensures
        v == spec_kind_to_view(kind),
{
    match kind {
        FindingKind::SystemBehaviour => FindingKindView::SystemBehaviour,
        FindingKind::Procedure => FindingKindView::Procedure,
        FindingKind::Practice => FindingKindView::Practice,
        FindingKind::Configuration => FindingKindView::Configuration,
    }
}

/// The kind as the bus spells it.
pub fn kind_label(kind: FindingKind) -> (label: String)
    ensures
        label@ == spec_kind_label(kind),
{
    String::from_str(match kind {
        FindingKind::SystemBehaviour => "system-behaviour",
        FindingKind::Procedure => "procedure",
        FindingKind::Practice => "practice",
        FindingKind::Configuration => "configuration",
    })
}

/// A kind chosen on the panel comes back to the panel as the same kind, and a kind kept
/// by the workflow is shown as itself.
pub proof fn finding_kinds_round_trip(v: FindingKindView, k: FindingKind)
    ensures
        spec_kind_to_view(spec_kind_from_view(v)) == v,
        spec_kind_from_view(spec_kind_to_view(k)) == k,
{
}

/// No two kinds share a spelling on the bus.
pub proof fn kind_labels_tell_kinds_apart(a: FindingKind, b: FindingKind)
    requires
        spec_kind_label(a) == spec_kind_label(b),
    ensures
        a == b,
{
    reveal_strlit("system-behaviour");
    reveal_strlit("procedure");
    reveal_strlit("practice");
    reveal_strlit("configuration");
    if a != b {
        match a {
            FindingKind::SystemBehaviour => assert(spec_kind_label(a)[0] == 's'),
            FindingKind::Procedure => assert(spec_kind_label(a)[2] == 'o'),
            FindingKind::Practice => assert(spec_kind_label(a)[2] == 'a'),
            FindingKind::Configuration => assert(spec_kind_label(a)[0] == 'c'),
        }
    }
}

/// Where a review stands.
#[derive(Debug, Clone, Copy, PartialEq, Eq, Structural)]
pub enum ReviewState {
    Open,
    Concluded,
    Closed,
}

/// Open a review: of the session `reviewable` names (the one under replay, else the live
/// one), unless a review that is not closed is still in force or there is no session to
/// review; each refusal is the alert that says so.
pub fn open_review(current: Option<ReviewState>, reviewable: Option<u64>) -> (opened: Result<u64, &'static str>)
    ensures
        match current {
            Some(s) if s != ReviewState::Closed => opened matches Err(a) && a@ == "a review is already open; conclude and close it first"@,
            _ => match reviewable {
                None => opened matches Err(a) && a@ == "no session is open to review: open one, or replay one"@,
                Some(session) => opened == Ok::<u64, &'static str>(session),
            },
        },
{
    match current {
        Some(ReviewState::Open) | Some(ReviewState::Concluded) => return Err("a review is already open; conclude and close it first"),
        _ => {},
    }
    match reviewable {
        None => Err("no session is open to review: open one, or replay one"),
        Some(session) => Ok(session),
    }
}

/// Why a finding cannot be recorded now: there is no review, or it is concluded; `None`
/// when it can.
pub fn finding_refusal(current: Option<ReviewState>) -> (refusal: Option<&'static str>)
    ensures
        match current {
            None => refusal matches Some(a) && a@ == "no review is open to record a finding in"@,
            Some(ReviewState::Open) => refusal is None,
            Some(_) => refusal matches Some(a) && a@ == "the review is concluded; findings are recorded before that"@,
        },
{
    match current {
        None => Some("no review is open to record a finding in"),
        Some(ReviewState::Open) => None,
        Some(_) => Some("the review is concluded; findings are recorded before that"),
    }
}

/// A step taken on a review that is already open.
#[derive(Debug, Clone, Copy, PartialEq, Eq, Structural)]
pub enum ReviewStep {
    SeekTo,
    Conclude,
    Close,
    Promote,
}

/// Why a step cannot be taken on the review as it stands, as the alert that says so: no
/// review is open for it, or, for concluding, the review has already been concluded or
/// closed. `None` when the step may go ahead; what a step then refuses of a finding or of
/// the review's own rules is said where it is decided.
pub fn step_refusal(step: ReviewStep, current: Option<ReviewState>) -> (refusal: Option<&'static str>)
    ensures
        current is None ==> (refusal matches Some(a) && a@ == match step {
            ReviewStep::SeekTo => "no review is open to seek in"@,
            ReviewStep::Conclude => "no review is open to conclude"@,
            ReviewStep::Close => "no review is open to close"@,
            ReviewStep::Promote => "no review is open to promote a finding from"@,
        }),
        step == ReviewStep::Conclude && current == Some(ReviewState::Concluded) ==>
            (refusal matches Some(a) && a@ == "the review is already concluded"@),
        step == ReviewStep::Conclude && current == Some(ReviewState::Closed) ==>
            (refusal matches Some(a) && a@ == "the review is already closed"@),
        current is Some && !(step == ReviewStep::Conclude && current != Some(ReviewState::Open)) ==> refusal is None,
{
    match current {
        None => Some(match step {
            ReviewStep::SeekTo => "no review is open to seek in",
            ReviewStep::Conclude => "no review is open to conclude",
            ReviewStep::Close => "no review is open to close",
            ReviewStep::Promote => "no review is open to promote a finding from",
        }),
        Some(state) => match step {
            ReviewStep::Conclude => match state {
                ReviewState::Open => None,
                ReviewState::Concluded => Some("the review is already concluded"),
                ReviewState::Closed => Some("the review is already closed"),
            },
            _ => None,
        },
    }
}

/// Whether a trimmed entry names a register entry: `GAP-` and at least one more
/// character.
pub open spec fn names_register_entry(gap: Seq<char>) -> bool {
    begins_with(gap, "GAP-"@) && gap.len() >= 5
}

/// The register entry a finding is promoted into, trimmed; or, when what was typed is
/// not one, the alert that says so.
pub fn promotion_target(gap: &str) -> (target: Result<String, String>)
    ensures
        match target {
            Ok(t) => trimmed(gap@, t@) && names_register_entry(t@),
            Err(a) => exists|t: Seq<char>| trimmed(gap@, t) && !names_register_entry(t)
                && a@ == "a finding is promoted into a register entry, and "@ + quoted_name(t) + " is not one"@,
        },
{
    let t = trim(gap);
    let prefixed = starts_with(t.as_str(), "GAP-");
    let long_enough = t.as_str().unicode_len() >= 5;
    if prefixed && long_enough {
        Ok(t)
    } else {
        let mut a = String::from_str("a finding is promoted into a register entry, and ");
        let quoted = debug_string(t.as_str());
        push_str(&mut a, quoted.as_str());
        push_str(&mut a, " is not one");
        assert(trimmed(gap@, t@) && !names_register_entry(t@)
            && a@ == "a finding is promoted into a register entry, and "@ + quoted_name(t@) + " is not one"@);
        Err(a)
    }
}

/// The alert for a seek to a finding that recorded no moment.
pub fn no_moment(finding: u64) -> (alert: String)
    ensures
        alert@ == "finding #"@ + decimal(finding as nat) + " records no moment to seek to"@,
{
    let mut a = String::from_str("finding #");
    push_decimal(&mut a, finding);
    push_str(&mut a, " records no moment to seek to");
    a
}

/// The alert for a seek while the replay of the reviewed session is not open.
pub fn open_the_replay(session: u64, finding: u64) -> (alert: String)
    ensures
        alert@ == "open the replay of session "@ + decimal(session as nat) + " to seek to finding #"@
            + decimal(finding as nat),
{
    let mut a = String::from_str("open the replay of session ");
    push_decimal(&mut a, session);
    push_str(&mut a, " to seek to finding #");
    push_decimal(&mut a, finding);
    a
}

/// What the audit trail records of a finding.
pub fn finding_recorded(finding: u64, kind: FindingKind, session: u64) -> (entry: String)
    ensures
        entry@ == "recorded finding #"@ + decimal(finding as nat) + " ("@ + spec_kind_label(kind)
            + ") in the review of session "@ + decimal(session as nat),
{
    let mut a = String::from_str("recorded finding #");
    push_decimal(&mut a, finding);
    push_str(&mut a, " (");
    let label = kind_label(kind);
    push_str(&mut a, label.as_str());
    push_str(&mut a, ") in the review of session ");
    push_decimal(&mut a, session);
    a
}

/// What the audit trail records of a concluded review.
pub fn review_concluded(session: u64, findings: usize) -> (entry: String)
    ensures
        entry@ == "concluded the review of session "@ + decimal(session as nat) + " with "@
            + decimal(findings as nat) + " findings"@,
{
    let mut a = String::from_str("concluded the review of session ");
    push_decimal(&mut a, session);
    push_str(&mut a, " with ");
    push_decimal(&mut a, findings as u64);
    push_str(&mut a, " findings");
    a
}

} // verus!
