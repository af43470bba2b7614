//! Mid-session failover: falling back to embedded services when the node goes silent,
//! reconciling the two journals when it answers again, forwarding the outage's
//! decisions, and switching back only when a person may.
//!
//! Each step here is a decision over the outage's state: what the desktop does next and
//! what it says. Running the embedded services, fetching the node's history, computing
//! the merge and the arbitration rule's verdicts, and sending the batch are the caller's.
//!
//! The order the outage follows: the node answers again; its history arrives and the
//! merge is computed, the rule settling every conflict it can rank; the outage's
//! decisions are forwarded once every conflict is settled, once per outage; and the
//! switch back is refused while a conflict waits for a person, while the node has refused
//! the batch, and while the node is silent.

use vstd::prelude::*;
use std::collections::BTreeMap;
use crate::session::{Role, role_name, role_named, spec_role_name, spec_role_named};
use crate::text::{concat2, concat3, quoted_name, debug_string, decimal, decimal_string, push_decimal, push_str};

verus! {

/// A plan's identifier.
#[derive(Debug, Clone, Copy, PartialEq, Eq, Structural)]
pub struct PlanId(pub u64);

/// What one side of a conflict recorded about the plan.
#[derive(Debug, Clone, Copy, PartialEq, Eq, Structural)]
pub enum SideOutcome {
    Accepted,
    Rejected,
    Expired,
}

/// One side of a conflict, as its journal recorded it.
#[derive(Debug, Clone, PartialEq, Eq)]
pub struct ConflictSide {
    pub outcome: SideOutcome,
    pub operator: Option<String>,
    pub role: Option<String>,
}

/// Two decisions about one plan across the outage: this desktop's and the node's.
#[derive(Debug, Clone, PartialEq, Eq)]
pub struct DecisionConflict {
    pub plan: PlanId,
    pub local: ConflictSide,
    pub remote: ConflictSide,
}

/// Why the arbitration rule kept the side it kept.
#[derive(Debug, Clone, Copy, PartialEq, Eq, Structural)]
pub enum ArbitrationGround {
    DecisionOverExpiry,
    HigherRole,
    EarlierOnEqualRank,
    SameTimeOnEqualRank,
}

/// The arbitration rule's verdict on a conflict, reading this desktop's side first.
#[derive(Debug, Clone, Copy, PartialEq, Eq, Structural)]
pub struct Verdict {
    pub keep_first: bool,
    pub ground: ArbitrationGround,
}

/// A conflict the arbitration rule resolved, and how.
#[derive(Debug, Clone, PartialEq, Eq)]
pub struct Arbitrated {
    pub conflict: DecisionConflict,
    /// Whether this desktop's side was kept; `false` means the node's.
    pub kept_local: bool,
    pub ground: ArbitrationGround,
}

/// What the merge of the two journals found for the outage.
#[derive(Debug, Clone, PartialEq, Eq)]
pub struct Reconciliation {
    /// Envelopes this desktop journaled during the outage.
    pub local: usize,
    /// Envelopes the node journaled during the outage.
    pub remote: usize,
    pub merged: usize,
    pub duplicates_dropped: usize,
    /// Conflicts the arbitration rule could not rank, left to a person.
    pub conflicts: Vec<DecisionConflict>,
    /// Conflicts the arbitration rule resolved when the reconciliation was computed.
    pub arbitrated: Vec<Arbitrated>,
    /// Conflicts a person resolved, with whether this desktop's side was kept.
    pub resolved: Vec<(PlanId, bool)>,
    /// Who resolved each conflict in `resolved`, by the plan's identifier: the verified
    /// operator, or `None` with nobody signed in.
    pub resolved_by: BTreeMap<u64, Option<String>>,
    /// Tracks engaged on both sides of the outage. Never resolved by anyone.
    pub both_acted: Vec<u64>,
}

/// Where an outage's decisions stand on their way to the node's record.
#[derive(Debug, Clone, PartialEq, Eq)]
pub enum Forwarding {
    /// Not sent yet: the merge has not been computed, or a conflict waits for a person.
    Waiting,
    /// This desktop decided nothing while it was cut off.
    NothingDecided,
    /// Handed to the link and not yet answered.
    Sent { decisions: usize },
    /// The node took the whole outage onto its record.
    Accepted { recorded: usize, already_held: usize, settled: usize },
    /// The node refused the batch and applied none of it.
    Refused(String),
}

/// The fallback in force.
#[derive(Debug, Clone, PartialEq, Eq)]
pub struct Fallback {
    pub endpoint: String,
    /// The last envelope sequence the link had applied when the desktop fell back.
    pub last_seq: u64,
    /// Whether the node has answered again.
    pub restored: bool,
    /// The merge once the node's history arrived, or why it could not be computed;
    /// `None` while the fetch is in flight.
    pub reconciliation: Option<Result<Reconciliation, String>>,
    /// Whether the delegations in force when the node went silent have lapsed.
    pub lapsed: bool,
    pub forwarding: Forwarding,
}

/// What the link has queued for the node and what it has delivered.
#[derive(Debug, Clone, Copy, PartialEq, Eq, Structural)]
pub struct OutboxView {
    pub queued: usize,
    pub forwarded: u64,
    pub dropped: u64,
}

/// What the merge settled about a plan, as the node is told it.
#[derive(Debug, Clone, PartialEq, Eq)]
pub enum Settlement {
    /// The arbitration rule's verdict, with both sides as it read them.
    Rule { kept_local: bool, ground: ArbitrationGround, local: ConflictSide, remote: ConflictSide },
    /// A person's resolution, and who made it.
    Person { kept_local: bool, operator: Option<String> },
}

/// What switching back does: the event's counts and the alert.
#[derive(Debug, Clone, PartialEq, Eq)]
pub struct SwitchedBack {
    pub endpoint: String,
    pub merged: usize,
    pub conflicts: usize,
    pub node_history: bool,
    pub alert: String,
}

/// A copy of an optional string.
pub fn copy_opt_string(o: &Option<String>) -> (r: Option<String>)
    ensures
        r == *o,
{
    match o {
        Some(s) => Some(s.clone()),
        None => None,
    }
}

/// A copy of one side of a conflict.
pub fn copy_side(side: &ConflictSide) -> (r: ConflictSide)
    ensures
        r == *side,
{
    ConflictSide {
        outcome: side.outcome,
        operator: copy_opt_string(&side.operator),
        role: copy_opt_string(&side.role),
    }
}

/// Why the arbitration rule kept the side it kept, in PN-18's words.
pub open spec fn ground_text(ground: ArbitrationGround) -> Seq<char> {
    match ground {
        ArbitrationGround::DecisionOverExpiry =>
            "a decision stands over an expiry, whatever rank either side carried (DN-10 §9)"@,
        ArbitrationGround::HigherRole => "the higher role wins (D-03)"@,
        ArbitrationGround::EarlierOnEqualRank => "equal rank, and the earlier decision wins (D-03)"@,
        ArbitrationGround::SameTimeOnEqualRank =>
            "equal rank at the same moment, so neither was earlier; the rule keeps this desktop's, which it reads first"@,
    }
}

/// Why the arbitration rule kept the side it kept, in PN-18's words.
pub fn ground_reason(ground: ArbitrationGround) -> (reason: &'static str)
    ensures
        reason@ == ground_text(ground),
{
    match ground {
        ArbitrationGround::DecisionOverExpiry =>
            "a decision stands over an expiry, whatever rank either side carried (DN-10 §9)",
        ArbitrationGround::HigherRole => "the higher role wins (D-03)",
        ArbitrationGround::EarlierOnEqualRank => "equal rank, and the earlier decision wins (D-03)",
        ArbitrationGround::SameTimeOnEqualRank =>
            "equal rank at the same moment, so neither was earlier; the rule keeps this desktop's, which it reads first",
    }
}

/// Why one side of a conflict could not be ranked, if it could not: an expiry is always
/// rankable; a decision with no recorded role, or a role this build does not know, is not.
pub open spec fn side_unranked(side: ConflictSide, whose: Seq<char>) -> Option<Seq<char>> {
    if side.outcome == SideOutcome::Expired {
        None
    } else {
        match side.role {
            None => Some(whose + " decision has no recorded role"@),
            Some(name) => if spec_role_named(name@) is None {
                Some(whose + " decision records "@ + quoted_name(name@) + ", which is not a role this build knows"@)
            } else {
                None
            },
        }
    }
}

/// Why the arbitration rule could not rank a conflict, in PN-18's words.
pub open spec fn unranked_text(conflict: DecisionConflict) -> Seq<char> {
    let a = side_unranked(conflict.local, "this desktop's"@);
    let b = side_unranked(conflict.remote, "the node's"@);
    match (a, b) {
        (Some(x), Some(y)) => x + ", and "@ + y,
        (Some(x), None) => x,
        (None, Some(y)) => y,
        (None, None) => "the rule could not order the two decisions in time"@,
    }
}

fn side_reason(side: &ConflictSide, whose: &str) -> (reason: Option<String>)
    ensures
        reason matches Some(r) ==> side_unranked(*side, whose@) == Some(r@),
        reason is None <==> side_unranked(*side, whose@) is None,
{
    if matches!(side.outcome, SideOutcome::Expired) {
        return None;
    }
    match &side.role {
        None => {
            let mut r = String::from_str(whose);
            push_str(&mut r, " decision has no recorded role");
            Some(r)
        },
        Some(name) => {
            if role_named(name.as_str()).is_none() {
                let mut r = String::from_str(whose);
                push_str(&mut r, " decision records ");
                let quoted = debug_string(name.as_str());
                push_str(&mut r, quoted.as_str());
                push_str(&mut r, ", which is not a role this build knows");
                Some(r)
            } else {
                None
            }
        },
    }
}

/// Why the arbitration rule could not rank a conflict: which side's role is missing or is
/// no role this build knows, or, with both known, that the two could not be ordered in time.
pub fn unranked_reason(conflict: &DecisionConflict) -> (reason: String)
    ensures
        reason@ == unranked_text(*conflict),
{
    let a = side_reason(&conflict.local, "this desktop's");
    let b = side_reason(&conflict.remote, "the node's");
    match (a, b) {
        (Some(x), Some(y)) => {
            let mut r = x;
            push_str(&mut r, ", and ");
            push_str(&mut r, y.as_str());
            r
        },
        (Some(x), None) => x,
        (None, Some(y)) => y,
        (None, None) => String::from_str("the rule could not order the two decisions in time"),
    }
}


/// The first verdict of the rule about `plan`, if it ruled on it.
pub open spec fn find_arbitrated(s: Seq<Arbitrated>, plan: PlanId) -> Option<Arbitrated>
    decreases s.len(),
{
    if s.len() == 0 {
        None
    } else if s[0].conflict.plan == plan {
        Some(s[0])
    } else {
        find_arbitrated(s.drop_first(), plan)
    }
}

/// The first person's resolution of `plan`, as whether this desktop's side was kept.
pub open spec fn find_resolved(s: Seq<(PlanId, bool)>, plan: PlanId) -> Option<bool>
    decreases s.len(),
{
    if s.len() == 0 {
        None
    } else if s[0].0 == plan {
        Some(s[0].1)
    } else {
        find_resolved(s.drop_first(), plan)
    }
}

/// Who resolved `plan`, as the record names them: `None` when nobody is named.
pub open spec fn resolver_of(by: Map<u64, Option<String>>, plan: PlanId) -> Option<String> {
    if by.contains_key(plan.0) {
        by[plan.0]
    } else {
        None
    }
}

/// What the merge settled about a plan: the rule's verdict where it ruled, else a
/// person's resolution and who made it, else nothing.
pub open spec fn settlement_of(rec: Reconciliation, plan: PlanId) -> Option<Settlement> {
    match find_arbitrated(rec.arbitrated@, plan) {
        Some(a) => Some(Settlement::Rule {
            kept_local: a.kept_local,
            ground: a.ground,
            local: a.conflict.local,
            remote: a.conflict.remote,
        }),
        None => match find_resolved(rec.resolved@, plan) {
            Some(kept_local) => Some(Settlement::Person {
                kept_local,
                operator: resolver_of(rec.resolved_by@, plan),
            }),
            None => None,
        },
    }
}

/// What the merge settled about a plan, as the node is told it.
pub fn settlement_for(reconciliation: &Reconciliation, plan: PlanId) -> (settled: Option<Settlement>)
    ensures
        settled == settlement_of(*reconciliation, plan),
{
    let arbitrated = &reconciliation.arbitrated;
    proof {
        assert(arbitrated@.skip(0) =~= arbitrated@);
        assert(reconciliation.resolved@.skip(0) =~= reconciliation.resolved@);
    }
    let mut i: usize = 0;
    while i < arbitrated.len()
        invariant
            i <= arbitrated@.len(),
            find_arbitrated(arbitrated@, plan) == find_arbitrated(arbitrated@.skip(i as int), plan),
            arbitrated == &reconciliation.arbitrated,
        decreases arbitrated@.len() - i,
    {
        proof {
            assert(arbitrated@.skip(i as int).drop_first() =~= arbitrated@.skip(i + 1));
        }
        if arbitrated[i].conflict.plan == plan {
            let a = &arbitrated[i];
            assert(arbitrated@.skip(i as int)[0] == arbitrated@[i as int]);
            assert(find_arbitrated(arbitrated@, plan) == Some(arbitrated@[i as int]));
            return Some(Settlement::Rule {
                kept_local: a.kept_local,
                ground: a.ground,
                local: copy_side(&a.conflict.local),
                remote: copy_side(&a.conflict.remote),
            });
        }
        i = i + 1;
    }
    proof {
        assert(arbitrated@.skip(i as int) =~= Seq::<Arbitrated>::empty());
        assert(find_arbitrated(arbitrated@, plan) is None);
    }
    let resolved = &reconciliation.resolved;
    let mut j: usize = 0;
    while j < resolved.len()
        invariant
            j <= resolved@.len(),
            find_resolved(resolved@, plan) == find_resolved(resolved@.skip(j as int), plan),
            find_arbitrated(reconciliation.arbitrated@, plan) is None,
            resolved == &reconciliation.resolved,
        decreases resolved@.len() - j,
    {
        proof {
            assert(resolved@.skip(j as int).drop_first() =~= resolved@.skip(j + 1));
        }
        if resolved[j].0 == plan {
            assert(resolved@.skip(j as int)[0] == resolved@[j as int]);
            assert(find_resolved(resolved@, plan) == Some(resolved@[j as int].1));
            assert(find_arbitrated(reconciliation.arbitrated@, plan) is None);
            let kept_local = resolved[j].1;
            let operator = resolver(&reconciliation.resolved_by, plan);
            return Some(Settlement::Person { kept_local, operator });
        }
        j = j + 1;
    }
    proof {
        assert(resolved@.skip(j as int) =~= Seq::<(PlanId, bool)>::empty());
    }
    None
}

fn resolver(by: &BTreeMap<u64, Option<String>>, plan: PlanId) -> (who: Option<String>)
    ensures
        who == resolver_of(by@, plan),
{
    match by.get(&plan.0) {
        Some(who) => copy_opt_string(who),
        None => None,
    }
}

/// Whether the reconciliation leaves nothing for a person: the node's half was
/// unavailable and the report says so, or every conflict the rule could not rank has been
/// resolved.
pub open spec fn nothing_waits_for_a_person(r: Result<Reconciliation, String>) -> bool {
    match r {
        Ok(rec) => rec.conflicts@.len() == 0,
        Err(_) => true,
    }
}

/// Whether the switch back can be asked for now: the reconciliation is in and leaves
/// nothing for a person, the node has not refused the outage, and the node answers.
pub open spec fn switch_back_allowed(f: Fallback, link_connected: Option<bool>) -> bool {
    &&& f.reconciliation is Some
    &&& nothing_waits_for_a_person(f.reconciliation->0)
    &&& !(f.forwarding is Refused)
    &&& link_connected == Some(true)
}

/// Whether the switch back can be asked for now, for PN-18. `link_connected` is `None`
/// with no link, else whether the node answers.
pub fn can_switch_back(f: &Fallback, link_connected: Option<bool>) -> (can: bool)
    ensures
        can == switch_back_allowed(*f, link_connected),
{
    let settled = match &f.reconciliation {
        None => false,
        Some(Ok(r)) => r.conflicts.len() == 0,
        Some(Err(_)) => true,
    };
    settled && !matches!(f.forwarding, Forwarding::Refused(_)) && matches!(link_connected, Some(true))
}

/// Why the switch back is refused, or `None` when it may go ahead.
pub open spec fn switch_refusal(fallback: Option<Fallback>, link_connected: Option<bool>) -> Option<Seq<char>> {
    match fallback {
        None => Some("no outage to switch back from"@),
        Some(f) => if !f.restored {
            Some("node "@ + f.endpoint@ + " has not answered yet"@)
        } else if f.reconciliation is None {
            Some("the reconciliation is still being computed"@)
        } else if f.reconciliation->0 is Ok && f.reconciliation->0->Ok_0.conflicts@.len() != 0 {
            Some(decimal(f.reconciliation->0->Ok_0.conflicts@.len())
                + " conflict(s) the arbitration rule could not rank are unresolved; a person permitted to decide plans resolves each before switching back"@)
        } else if f.forwarding is Refused {
            Some("the node refused this desktop's outage and holds none of it ("@ + f.forwarding->Refused_0@
                + "); a person has to see why before switching back"@)
        } else if link_connected is None {
            Some("the link is gone; sign in again"@)
        } else if link_connected == Some(false) {
            Some("node "@ + f.endpoint@ + " is silent again; the switch waits for it"@)
        } else {
            None
        },
    }
}

/// The counts the switch puts on the record: envelopes merged, conflicts of either kind,
/// and whether the node's half was there.
pub open spec fn switch_counts(r: Result<Reconciliation, String>) -> (nat, nat, bool) {
    match r {
        Ok(rec) => {
            let all = rec.conflicts@.len() + rec.arbitrated@.len() + rec.resolved@.len();
            (rec.merged as nat, if all > usize::MAX { usize::MAX as nat } else { all }, true)
        },
        Err(_) => (0, 0, false),
    }
}

/// Switch the desktop back to the node after the reconciliation has been seen (D-15).
/// On success the fallback ends and the returned value is what the caller puts on the
/// record; on refusal nothing changes and the reason is returned.
pub fn switch_back(fallback: &mut Option<Fallback>, link_connected: Option<bool>) -> (result: Result<SwitchedBack, String>)
    ensures
        match switch_refusal(*old(fallback), link_connected) {
            Some(why) => result matches Err(e) && e@ == why && *final(fallback) == *old(fallback),
            None => result matches Ok(s) && {
                let f = old(fallback)->0;
                let counts = switch_counts(f.reconciliation->0);
                &&& *final(fallback) is None
                &&& s.endpoint@ == f.endpoint@
                &&& s.merged == counts.0
                &&& s.conflicts == counts.1
                &&& s.node_history == counts.2
                &&& s.alert@ == "switched back to node "@ + f.endpoint@ + "; "@ + decimal(counts.0)
                    + " envelope(s) merged, "@ + decimal(counts.1) + " conflict(s) on the record"@
            },
        },
{
    let done = match fallback {
        None => return Err(String::from_str("no outage to switch back from")),
        Some(f) => switch_back_from(f, link_connected),
    };
    if done.is_ok() {
        *fallback = None;
    }
    done
}

fn switch_back_from(f: &Fallback, link_connected: Option<bool>) -> (result: Result<SwitchedBack, String>)
    ensures
        match switch_refusal(Some(*f), link_connected) {
            Some(why) => result matches Err(e) && e@ == why,
            None => result matches Ok(s) && {
                let counts = switch_counts(f.reconciliation->0);
                &&& s.endpoint@ == f.endpoint@
                &&& s.merged == counts.0
                &&& s.conflicts == counts.1
                &&& s.node_history == counts.2
                &&& s.alert@ == "switched back to node "@ + f.endpoint@ + "; "@ + decimal(counts.0)
                    + " envelope(s) merged, "@ + decimal(counts.1) + " conflict(s) on the record"@
            },
        },
{
    if !f.restored {
        return Err(concat3("node ", f.endpoint.as_str(), " has not answered yet"));
    }
    let reconciliation = match &f.reconciliation {
        None => return Err(String::from_str("the reconciliation is still being computed")),
        Some(r) => r,
    };
    if let Ok(r) = reconciliation {
        if r.conflicts.len() != 0 {
            let mut e = decimal_string(r.conflicts.len() as u64);
            push_str(&mut e, " conflict(s) the arbitration rule could not rank are unresolved; a person permitted to decide plans resolves each before switching back");
            return Err(e);
        }
    }
    if let Forwarding::Refused(why) = &f.forwarding {
        return Err(concat3(
            "the node refused this desktop's outage and holds none of it (",
            why.as_str(),
            "); a person has to see why before switching back",
        ));
    }
    match link_connected {
        None => return Err(String::from_str("the link is gone; sign in again")),
        Some(false) => return Err(concat3("node ", f.endpoint.as_str(), " is silent again; the switch waits for it")),
        Some(true) => {},
    }
    let (merged, conflicts, node_history) = match reconciliation {
        Ok(r) => {
            let all = r.conflicts.len().saturating_add(r.arbitrated.len()).saturating_add(r.resolved.len());
            (r.merged, all, true)
        },
        Err(_) => (0, 0, false),
    };
    let mut alert = concat3("switched back to node ", f.endpoint.as_str(), "; ");
    push_decimal(&mut alert, merged as u64);
    push_str(&mut alert, " envelope(s) merged, ");
    push_decimal(&mut alert, conflicts as u64);
    push_str(&mut alert, " conflict(s) on the record");
    Ok(SwitchedBack { endpoint: f.endpoint.clone(), merged, conflicts, node_history, alert })
}


/// A copy of a conflict.
pub fn copy_conflict(c: &DecisionConflict) -> (r: DecisionConflict)
    ensures
        r == *c,
{
    DecisionConflict { plan: c.plan, local: copy_side(&c.local), remote: copy_side(&c.remote) }
}

/// Whether the outage's decisions are due to go: not yet sent, the merge is in, and
/// nothing in it waits for a person.
pub open spec fn ready_to_forward(f: Fallback) -> bool {
    &&& f.forwarding == Forwarding::Waiting
    &&& f.reconciliation is Some
    &&& nothing_waits_for_a_person(f.reconciliation->0)
}

/// Where a due batch of `decisions` decisions stands once handed over: nothing decided,
/// sent on the link, or refused for want of one.
pub open spec fn forwarded_as(forwarding: Forwarding, decisions: nat, link_present: bool) -> bool {
    if decisions == 0 {
        forwarding == Forwarding::NothingDecided
    } else if link_present {
        forwarding == Forwarding::Sent { decisions: decisions as usize }
    } else {
        forwarding matches Forwarding::Refused(why)
            && why@ == "the link to the node is gone, so the outage could not be forwarded; sign in again"@
    }
}

/// Two outages that differ at most in where their decisions stand.
pub open spec fn same_but_forwarding(a: Fallback, b: Fallback) -> bool {
    &&& a.endpoint == b.endpoint
    &&& a.last_seq == b.last_seq
    &&& a.restored == b.restored
    &&& a.reconciliation == b.reconciliation
    &&& a.lapsed == b.lapsed
}

fn is_ready(f: &Fallback) -> (ready: bool)
    ensures
        ready == ready_to_forward(*f),
{
    matches!(f.forwarding, Forwarding::Waiting) && match &f.reconciliation {
        None => false,
        Some(Ok(r)) => r.conflicts.len() == 0,
        Some(Err(_)) => true,
    }
}

/// Send the outage's decisions to the node once nothing in the merge waits for a person,
/// once per outage. `decisions` is how many this desktop took while cut off, `settled`
/// how many of them carry a conflict's settlement, and `link_present` whether a link
/// carries them. Returns the alert when the batch is handed to the link for sending.
pub fn forward_if_settled(fallback: &mut Option<Fallback>, decisions: usize, settled: usize, link_present: bool) -> (alert: Option<String>)
    ensures
        match *old(fallback) {
            Some(f) => if ready_to_forward(f) {
                &&& *final(fallback) is Some
                &&& same_but_forwarding(final(fallback)->0, f)
                &&& forwarded_as(final(fallback)->0.forwarding, decisions as nat, link_present)
                &&& match alert {
                    Some(a) => decisions > 0 && link_present
                        && a@ == "forwarding this desktop's outage to the node: "@ + decimal(decisions as nat)
                            + " decision(s), "@ + decimal(settled as nat) + " with the settlement of a conflict"@,
                    None => !(decisions > 0 && link_present),
                }
            } else {
                *final(fallback) == *old(fallback) && alert is None
            },
            None => *final(fallback) is None && alert is None,
        },
{
    let ready = match fallback {
        None => false,
        Some(f) => is_ready(f),
    };
    if !ready {
        return None;
    }
    let mut f = fallback.take().unwrap();
    let mut alert = None;
    if decisions == 0 {
        f.forwarding = Forwarding::NothingDecided;
    } else if link_present {
        let mut a = String::from_str("forwarding this desktop's outage to the node: ");
        push_decimal(&mut a, decisions as u64);
        push_str(&mut a, " decision(s), ");
        push_decimal(&mut a, settled as u64);
        push_str(&mut a, " with the settlement of a conflict");
        alert = Some(a);
        f.forwarding = Forwarding::Sent { decisions };
    } else {
        f.forwarding = Forwarding::Refused(String::from_str(
            "the link to the node is gone, so the outage could not be forwarded; sign in again",
        ));
    }
    *fallback = Some(f);
    alert
}

/// Whether the outage holds `plan` as a conflict left to a person.
pub open spec fn holds_conflict(fallback: Option<Fallback>, plan: PlanId) -> bool {
    &&& fallback is Some
    &&& fallback->0.reconciliation matches Some(Ok(r))
    &&& exists|i: int| 0 <= i < r.conflicts@.len() && r.conflicts@[i].plan == plan
}

/// Why a person may not resolve `plan`, or `None` when they may.
pub open spec fn resolve_refusal(fallback: Option<Fallback>, may_decide: bool, role: Role, plan: PlanId) -> Option<Seq<char>> {
    if !may_decide {
        Some(spec_role_name(role) + " may not decide plans, and resolving a conflict is a decision"@)
    } else if !(fallback is Some && fallback->0.reconciliation matches Some(Ok(_))) {
        Some("no reconciliation holds a conflict to resolve"@)
    } else if holds_conflict(fallback, plan) {
        None
    } else {
        let r = fallback->0.reconciliation->0->Ok_0;
        match find_arbitrated(r.arbitrated@, plan) {
            Some(a) => Some("plan "@ + decimal(plan.0 as nat) + " was resolved by the arbitration rule ("@
                + ground_text(a.ground) + "); it is not left to a person"@),
            None => Some("plan "@ + decimal(plan.0 as nat) + " is not a conflict of this outage"@),
        }
    }
}

/// A person resolves one conflict the arbitration rule could not rank: the kept side's
/// decision stands on this desktop's record, and the record says who. `may_decide` is
/// whether `role` may decide plans; `operator` is the verified operator, or `None` with
/// nobody signed in. Refused, with nothing changed, when the role may not decide plans or
/// no reconciliation holds the plan as a conflict left to a person.
pub fn resolve_conflict(
    fallback: &mut Option<Fallback>,
    may_decide: bool,
    role: Role,
    plan: PlanId,
    keep_local: bool,
    operator: Option<String>,
) -> (result: Result<(), String>)
    ensures
        result is Ok <==> resolve_refusal(*old(fallback), may_decide, role, plan) is None,
        result matches Err(e) ==> *final(fallback) == *old(fallback)
            && resolve_refusal(*old(fallback), may_decide, role, plan) == Some(e@),
        result is Ok ==> {
            let f = old(fallback)->0;
            let r = f.reconciliation->0->Ok_0;
            &&& *final(fallback) is Some
            &&& same_but_reconciliation(final(fallback)->0, f)
            &&& final(fallback)->0.reconciliation matches Some(Ok(after)) && {
                &&& exists|i: int| #![trigger r.conflicts@[i]]
                        0 <= i < r.conflicts@.len() && r.conflicts@[i].plan == plan
                        && (forall|k: int| 0 <= k < i ==> r.conflicts@[k].plan != plan)
                        && after.conflicts@ == r.conflicts@.remove(i)
                &&& after.resolved@ == r.resolved@.push((plan, keep_local))
                &&& after.resolved_by@ == r.resolved_by@.insert(plan.0, operator)
                &&& after.arbitrated == r.arbitrated
                &&& after.local == r.local && after.remote == r.remote
                &&& after.merged == r.merged && after.duplicates_dropped == r.duplicates_dropped
                &&& after.both_acted == r.both_acted
            }
        },
{
    if !may_decide {
        let mut e = String::from_str(role_name(role));
        push_str(&mut e, " may not decide plans, and resolving a conflict is a decision");
        return Err(e);
    }
    let found: Option<usize> = match fallback {
        Some(f) => match &f.reconciliation {
            Some(Ok(r)) => {
                let mut i: usize = 0;
                while i < r.conflicts.len() && r.conflicts[i].plan != plan
                    invariant
                        i <= r.conflicts@.len(),
                        forall|k: int| 0 <= k < i ==> r.conflicts@[k].plan != plan,
                    decreases r.conflicts@.len() - i,
                {
                    i = i + 1;
                }
                let at: Option<usize> = if i < r.conflicts.len() { Some(i) } else { None };
                match at {
                    Some(at) => Some(at),
                    None => {
                        let mut e = String::from_str("plan ");
                        push_decimal(&mut e, plan.0);
                        match find_arbitrated_in(&r.arbitrated, plan) {
                            Some(ground) => {
                                push_str(&mut e, " was resolved by the arbitration rule (");
                                push_str(&mut e, ground_reason(ground));
                                push_str(&mut e, "); it is not left to a person");
                            },
                            None => {
                                push_str(&mut e, " is not a conflict of this outage");
                            },
                        }
                        return Err(e);
                    },
                }
            },
            _ => None,
        },
        None => None,
    };
    let at = match found {
        None => return Err(String::from_str("no reconciliation holds a conflict to resolve")),
        Some(at) => at,
    };
    let mut f = fallback.take().unwrap();
    let mut r = f.reconciliation.take().unwrap().unwrap();
    let ghost before = r;
    r.conflicts.remove(at);
    r.resolved.push((plan, keep_local));
    r.resolved_by.insert(plan.0, operator);
    f.reconciliation = Some(Ok(r));
    *fallback = Some(f);
    Ok(())
}

/// The audit entry for a person resolving a conflict: the plan, as its identifier is
/// written, and whose decision was kept.
pub fn conflict_resolved_audit(plan: &str, keep_local: bool) -> (entry: String)
    ensures
        entry@ == "reconciliation: plan "@ + plan@ + " kept "@
            + if keep_local { "this desktop's decision"@ } else { "the node's decision"@ },
{
    let mut e = String::from_str("reconciliation: plan ");
    push_str(&mut e, plan);
    push_str(&mut e, " kept ");
    push_str(&mut e, if keep_local { "this desktop's decision" } else { "the node's decision" });
    e
}

/// Two outages that differ at most in their reconciliation.
pub open spec fn same_but_reconciliation(a: Fallback, b: Fallback) -> bool {
    &&& a.endpoint == b.endpoint
    &&& a.last_seq == b.last_seq
    &&& a.restored == b.restored
    &&& a.lapsed == b.lapsed
    &&& a.forwarding == b.forwarding
}

fn find_arbitrated_in(arbitrated: &Vec<Arbitrated>, plan: PlanId) -> (ground: Option<ArbitrationGround>)
    ensures
        match find_arbitrated(arbitrated@, plan) {
            Some(a) => ground == Some(a.ground),
            None => ground is None,
        },
{
    proof {
        assert(arbitrated@.skip(0) =~= arbitrated@);
    }
    let mut i: usize = 0;
    while i < arbitrated.len()
        invariant
            i <= arbitrated@.len(),
            find_arbitrated(arbitrated@, plan) == find_arbitrated(arbitrated@.skip(i as int), plan),
        decreases arbitrated@.len() - i,
    {
        proof {
            assert(arbitrated@.skip(i as int).drop_first() =~= arbitrated@.skip(i + 1));
        }
        if arbitrated[i].conflict.plan == plan {
            assert(arbitrated@.skip(i as int)[0] == arbitrated@[i as int]);
            return Some(arbitrated[i].ground);
        }
        i = i + 1;
    }
    proof {
        assert(arbitrated@.skip(i as int) =~= Seq::<Arbitrated>::empty());
    }
    None
}


/// The node's answer to a forwarded outage.
#[derive(Debug, Clone, PartialEq, Eq)]
pub enum ForwardReply {
    /// The node took the whole outage onto its record.
    Accepted { recorded: usize, already_held: usize, settled: usize },
    /// The node refused the batch and applied none of it; why, as the node put it.
    Refused(String),
    /// The node would not take the batch at all.
    Rejected { status: u16, reason: String },
}

/// Where the outage's decisions stand after the node's answer, and the alert that says it.
pub open spec fn reply_outcome(reply: ForwardReply, forwarding: Forwarding, alert: Seq<char>) -> bool {
    match reply {
        ForwardReply::Accepted { recorded, already_held, settled } => {
            &&& forwarding == Forwarding::Accepted { recorded, already_held, settled }
            &&& alert == "the node holds this desktop's outage: "@ + decimal(recorded as nat) + " decision(s) recorded, "@
                + decimal(already_held as nat) + " it already held, "@ + decimal(settled as nat)
                + " settlement(s) put on its record"@
        },
        ForwardReply::Refused(why) => {
            &&& forwarding matches Forwarding::Refused(w) && w@ == why@
            &&& alert == "the node refused this desktop's outage and applied none of it: "@ + why@
                + ". The two records disagree about a decision and a person has to see why"@
        },
        ForwardReply::Rejected { status, reason } => {
            let why = decimal(status as nat) + ": "@ + reason@;
            &&& forwarding matches Forwarding::Refused(w) && w@ == why
            &&& alert == "the node would not take this desktop's outage ("@ + why
                + "); nothing of it is on the node's record"@
        },
    }
}

/// Take the node's answer to a forwarded outage: said either way, and, while the
/// fallback stands, where its decisions stand.
pub fn take_forward_reply(fallback: &mut Option<Fallback>, reply: ForwardReply) -> (alert: String)
    ensures
        exists|forwarding: Forwarding| #![trigger reply_outcome(reply, forwarding, alert@)]
            reply_outcome(reply, forwarding, alert@) && match *old(fallback) {
                Some(f) => *final(fallback) == Some(Fallback { forwarding, ..f }),
                None => *final(fallback) is None,
            },
{
    let (forwarding, alert) = match reply {
        ForwardReply::Accepted { recorded, already_held, settled } => {
            let mut a = String::from_str("the node holds this desktop's outage: ");
            push_decimal(&mut a, recorded as u64);
            push_str(&mut a, " decision(s) recorded, ");
            push_decimal(&mut a, already_held as u64);
            push_str(&mut a, " it already held, ");
            push_decimal(&mut a, settled as u64);
            push_str(&mut a, " settlement(s) put on its record");
            (Forwarding::Accepted { recorded, already_held, settled }, a)
        },
        ForwardReply::Refused(why) => {
            let a = concat3(
                "the node refused this desktop's outage and applied none of it: ",
                why.as_str(),
                ". The two records disagree about a decision and a person has to see why",
            );
            (Forwarding::Refused(why), a)
        },
        ForwardReply::Rejected { status, reason } => {
            let mut why = decimal_string(status as u64);
            push_str(&mut why, ": ");
            push_str(&mut why, reason.as_str());
            let a = concat3("the node would not take this desktop's outage (", why.as_str(), "); nothing of it is on the node's record");
            (Forwarding::Refused(why), a)
        },
    };
    let ghost chosen = forwarding;
    match fallback.take() {
        Some(mut f) => {
            f.forwarding = forwarding;
            *fallback = Some(f);
        },
        None => {},
    }
    assert(reply_outcome(reply, chosen, alert@));
    alert
}

/// What the node's history for the outage held, as the caller read it: this desktop's
/// own journal for the window (its envelope count, or why it could not be read), the
/// node's, and what the merge and the arbitration rule made of the two.
#[derive(Debug)]
pub enum HistoryOutcome {
    Complete {
        local: Result<usize, String>,
        remote: usize,
        merged: usize,
        duplicates_dropped: usize,
        /// Every conflict the merge reported, in its order, with the rule's verdict where
        /// the rule could rank it.
        judged: Vec<(DecisionConflict, Option<Verdict>)>,
        both_acted: Vec<u64>,
    },
    /// The node no longer holds its journal for the outage.
    Gone { reason: String },
    /// The node's history could not be fetched.
    Unreachable { reason: String },
}

/// The conflicts the rule ranked, in order, as its verdicts.
pub open spec fn ruled(judged: Seq<(DecisionConflict, Option<Verdict>)>) -> Seq<Arbitrated>
    decreases judged.len(),
{
    if judged.len() == 0 {
        Seq::empty()
    } else {
        let before = ruled(judged.drop_last());
        match judged.last().1 {
            Some(v) => before.push(Arbitrated { conflict: judged.last().0, kept_local: v.keep_first, ground: v.ground }),
            None => before,
        }
    }
}

/// The conflicts the rule could not rank, in order, left to a person.
pub open spec fn unranked(judged: Seq<(DecisionConflict, Option<Verdict>)>) -> Seq<DecisionConflict>
    decreases judged.len(),
{
    if judged.len() == 0 {
        Seq::empty()
    } else {
        let before = unranked(judged.drop_last());
        match judged.last().1 {
            Some(_) => before,
            None => before.push(judged.last().0),
        }
    }
}

/// The merge, or why it could not be computed.
pub open spec fn merge_result(outcome: HistoryOutcome, r: Result<Reconciliation, String>) -> bool {
    match outcome {
        HistoryOutcome::Complete { local, remote, merged, duplicates_dropped, judged, both_acted } => match local {
            Ok(n) => r matches Ok(rec) && {
                &&& rec.local == n && rec.remote == remote && rec.merged == merged
                &&& rec.duplicates_dropped == duplicates_dropped
                &&& rec.arbitrated@ == ruled(judged@)
                &&& rec.conflicts@ == unranked(judged@)
                &&& rec.resolved@.len() == 0
                &&& rec.resolved_by@ == Map::<u64, Option<String>>::empty()
                &&& rec.both_acted@ == both_acted@
            },
            Err(e) => r matches Err(why) && why@ == "this desktop's journal could not be read: "@ + e@,
        },
        HistoryOutcome::Gone { reason } => r matches Err(why)
            && why@ == "the node no longer holds its journal for the outage ("@ + reason@
                + "); the merge cannot be computed and the two records stay separate"@,
        HistoryOutcome::Unreachable { reason } => r matches Err(why)
            && why@ == "the node's history could not be fetched: "@ + reason@,
    }
}

/// The alert that says what the reconciliation came to.
pub open spec fn reconciliation_alert(r: Result<Reconciliation, String>) -> Seq<char> {
    match r {
        Ok(rec) => "reconciliation computed: "@ + decimal(rec.local as nat) + " local and "@ + decimal(rec.remote as nat)
            + " node envelopes, "@ + decimal(rec.merged as nat) + " merged, "@ + decimal(rec.duplicates_dropped as nat)
            + " duplicate(s) dropped; "@ + decimal(rec.arbitrated@.len()) + " conflicting decision(s) resolved by the arbitration rule, "@
            + decimal(rec.conflicts@.len()) + " left to a person; PN-18 holds it"@,
        Err(why) => "reconciliation not computed: "@ + why@,
    }
}

/// What folding the node's history into the outage said, and whether the outage's
/// decisions may go now (everything but an unreadable journal of this desktop's own).
#[derive(Debug, Clone, PartialEq, Eq)]
pub struct Supplied {
    pub alert: String,
    pub forward_now: bool,
}

fn split_judged(judged: &Vec<(DecisionConflict, Option<Verdict>)>) -> (split: (Vec<Arbitrated>, Vec<DecisionConflict>))
    ensures
        split.0@ == ruled(judged@),
        split.1@ == unranked(judged@),
{
    let mut arbitrated: Vec<Arbitrated> = Vec::new();
    let mut conflicts: Vec<DecisionConflict> = Vec::new();
    let mut i: usize = 0;
    while i < judged.len()
        invariant
            i <= judged@.len(),
            arbitrated@ == ruled(judged@.take(i as int)),
            conflicts@ == unranked(judged@.take(i as int)),
        decreases judged@.len() - i,
    {
        proof {
            assert(judged@.take(i + 1).drop_last() =~= judged@.take(i as int));
            assert(judged@.take(i + 1).last() == judged@[i as int]);
        }
        let conflict = copy_conflict(&judged[i].0);
        match judged[i].1 {
            Some(v) => arbitrated.push(Arbitrated { conflict, kept_local: v.keep_first, ground: v.ground }),
            None => conflicts.push(conflict),
        }
        i = i + 1;
    }
    proof {
        assert(judged@.take(judged@.len() as int) =~= judged@);
    }
    (arbitrated, conflicts)
}

fn alert_for_reconciliation(r: &Result<Reconciliation, String>) -> (alert: String)
    ensures
        alert@ == reconciliation_alert(*r),
{
    match r {
        Ok(rec) => {
            let mut a = String::from_str("reconciliation computed: ");
            push_decimal(&mut a, rec.local as u64);
            push_str(&mut a, " local and ");
            push_decimal(&mut a, rec.remote as u64);
            push_str(&mut a, " node envelopes, ");
            push_decimal(&mut a, rec.merged as u64);
            push_str(&mut a, " merged, ");
            push_decimal(&mut a, rec.duplicates_dropped as u64);
            push_str(&mut a, " duplicate(s) dropped; ");
            push_decimal(&mut a, rec.arbitrated.len() as u64);
            push_str(&mut a, " conflicting decision(s) resolved by the arbitration rule, ");
            push_decimal(&mut a, rec.conflicts.len() as u64);
            push_str(&mut a, " left to a person; PN-18 holds it");
            a
        },
        Err(why) => concat2("reconciliation not computed: ", why.as_str()),
    }
}

/// Fold the node's answer into the outage: the merge with every conflict the rule could
/// rank settled and the rest left to a person, or why it could not be computed. Nothing
/// happens unless the node has answered again since this desktop fell back.
pub fn supply_history(fallback: &mut Option<Fallback>, outcome: HistoryOutcome) -> (supplied: Option<Supplied>)
    ensures
        match *old(fallback) {
            Some(f) => if f.restored {
                &&& *final(fallback) is Some
                &&& final(fallback)->0.reconciliation is Some
                &&& merge_result(outcome, final(fallback)->0.reconciliation->0)
                &&& same_but_reconciliation(final(fallback)->0, f)
                &&& supplied matches Some(s) && {
                    &&& s.alert@ == reconciliation_alert(final(fallback)->0.reconciliation->0)
                    &&& s.forward_now == !(outcome matches HistoryOutcome::Complete { local: Err(_), .. })
                }
            } else {
                *final(fallback) == *old(fallback) && supplied is None
            },
            None => *final(fallback) is None && supplied is None,
        },
{
    let restored = match fallback {
        Some(f) => f.restored,
        None => false,
    };
    if !restored {
        return None;
    }
    let ghost given = outcome;
    let (result, forward_now) = match outcome {
        HistoryOutcome::Complete { local, remote, merged, duplicates_dropped, judged, both_acted } => match local {
            Ok(n) => {
                let (arbitrated, conflicts) = split_judged(&judged);
                (Ok(Reconciliation {
                    local: n,
                    remote,
                    merged,
                    duplicates_dropped,
                    conflicts,
                    arbitrated,
                    resolved: Vec::new(),
                    resolved_by: BTreeMap::new(),
                    both_acted,
                }), true)
            },
            Err(e) => (Err(concat2("this desktop's journal could not be read: ", e.as_str())), false),
        },
        HistoryOutcome::Gone { reason } => (Err(concat3(
            "the node no longer holds its journal for the outage (",
            reason.as_str(),
            "); the merge cannot be computed and the two records stay separate",
        )), true),
        HistoryOutcome::Unreachable { reason } => (Err(concat2("the node's history could not be fetched: ", reason.as_str())), true),
    };
    let alert = alert_for_reconciliation(&result);
    let mut f = fallback.take().unwrap();
    f.reconciliation = Some(result);
    *fallback = Some(f);
    Some(Supplied { alert, forward_now })
}


/// Apply the lapse of the delegations in force when the node went silent, once per
/// outage: `lapsed_now` is whether they stand lapsed on this desktop's clock, and
/// `delegates_any` whether the baseline delegates anything at all. Returns whether the
/// lapse is to be applied to the queue and put on the record; a baseline that delegates
/// nothing has nothing to lapse, and the outage only remembers the lapse fell due.
pub fn lapse_if_due(fallback: &mut Option<Fallback>, lapsed_now: bool, delegates_any: bool) -> (apply: bool)
    ensures
        match *old(fallback) {
            Some(f) => if !f.lapsed && lapsed_now {
                &&& *final(fallback) == Some(Fallback { lapsed: true, ..f })
                &&& apply == delegates_any
            } else {
                *final(fallback) == *old(fallback) && !apply
            },
            None => *final(fallback) is None && !apply,
        },
{
    let due = match fallback {
        Some(f) => !f.lapsed && lapsed_now,
        None => false,
    };
    if !due {
        return false;
    }
    let mut f = fallback.take().unwrap();
    f.lapsed = true;
    *fallback = Some(f);
    delegates_any
}

/// What the tick does about the link.
#[derive(Debug, Clone, Copy, PartialEq, Eq, Structural)]
pub enum TickAction {
    Nothing,
    /// The node has been silent past its heartbeat timeout: fall back to embedded services.
    FallBack,
    /// The node answers again after an outage: say so and fetch its history.
    Restore,
}

/// What the tick does about the link: fall back when a linked desktop's node is silent
/// past the timeout, restore when a cut-off desktop's node answers again, and nothing
/// otherwise, or with no link at all.
pub fn tick_action(backend_remote: bool, fallback: &Option<Fallback>, link_present: bool, silent_past_timeout: bool, link_connected: bool) -> (action: TickAction)
    ensures
        action == if !link_present {
            TickAction::Nothing
        } else if backend_remote && fallback is None && silent_past_timeout {
            TickAction::FallBack
        } else if !backend_remote && fallback is Some && !fallback->0.restored && link_connected {
            TickAction::Restore
        } else {
            TickAction::Nothing
        },
{
    if !link_present {
        return TickAction::Nothing;
    }
    match fallback {
        None => if backend_remote && silent_past_timeout { TickAction::FallBack } else { TickAction::Nothing },
        Some(f) => if !backend_remote && !f.restored && link_connected { TickAction::Restore } else { TickAction::Nothing },
    }
}

/// The outage that begins when the desktop falls back: nothing restored, merged, lapsed
/// or forwarded yet.
pub fn fall_back(endpoint: &str, last_seq: u64) -> (f: Fallback)
    ensures
        f.endpoint@ == endpoint@,
        f.last_seq == last_seq,
        !f.restored,
        f.reconciliation is None,
        !f.lapsed,
        f.forwarding == Forwarding::Waiting,
{
    Fallback {
        endpoint: String::from_str(endpoint),
        last_seq,
        restored: false,
        reconciliation: None,
        lapsed: false,
        forwarding: Forwarding::Waiting,
    }
}

/// The node answers again: the outage is restored, its history is asked for from the
/// envelope after the last one applied, and the alert says the desktop stays embedded.
pub fn restore(f: &mut Fallback) -> (next: (u64, String))
    ensures
        *final(f) == (Fallback { restored: true, ..*old(f) }),
        next.0 == (if old(f).last_seq == u64::MAX { u64::MAX } else { (old(f).last_seq + 1) as u64 }),
        next.1@ == "node "@ + old(f).endpoint@
            + " answers again; the desktop stays embedded until the reconciliation in PN-18 is seen"@,
{
    f.restored = true;
    let from_seq = f.last_seq.saturating_add(1);
    let alert = concat3(
        "node ",
        f.endpoint.as_str(),
        " answers again; the desktop stays embedded until the reconciliation in PN-18 is seen",
    );
    (from_seq, alert)
}

/// What the link has queued for the node and what it has delivered, or nothing with no
/// link.
pub fn outbox_view(link: Option<(usize, u64, u64)>) -> (view: Option<OutboxView>)
    ensures
        match link {
            Some((queued, forwarded, dropped)) => view == Some(OutboxView { queued, forwarded, dropped }),
            None => view is None,
        },
{
    match link {
        Some((queued, forwarded, dropped)) => Some(OutboxView { queued, forwarded, dropped }),
        None => None,
    }
}

/// The switch back succeeds exactly when PN-18 offers it: for an outage the node has
/// answered, the switch is refused for no reason if and only if it can be asked for.
pub proof fn switch_back_exactly_when_offered(f: Fallback, link_connected: Option<bool>)
    requires
        f.restored,
    ensures
        (switch_refusal(Some(f), link_connected) is None) == switch_back_allowed(f, link_connected),
{
    match f.reconciliation {
        None => {},
        Some(Ok(r)) => {},
        Some(Err(e)) => {},
    }
    match link_connected {
        None => {},
        Some(true) => {},
        Some(false) => {},
    }
}

/// A conflict waiting for a person holds both the switch back and the forwarding.
pub proof fn open_conflict_holds_switch_and_forwarding(f: Fallback, link_connected: Option<bool>)
    requires
        f.reconciliation matches Some(Ok(r)) && r.conflicts@.len() > 0,
    ensures
        switch_refusal(Some(f), link_connected) is Some,
        !switch_back_allowed(f, link_connected),
        !ready_to_forward(f),
{
}

/// A node that refused the outage holds the switch back until a person has seen why.
pub proof fn refused_outage_holds_switch(f: Fallback, link_connected: Option<bool>)
    requires
        f.forwarding is Refused,
    ensures
        switch_refusal(Some(f), link_connected) is Some,
        !switch_back_allowed(f, link_connected),
{
}

/// An outage is forwarded once: after its decisions are handed over it is never due again.
pub proof fn forwarded_once(f: Fallback, g: Fallback, decisions: nat, link_present: bool)
    requires
        ready_to_forward(f),
        same_but_forwarding(g, f),
        forwarded_as(g.forwarding, decisions, link_present),
    ensures
        !ready_to_forward(g),
{
}

/// The person who resolves the last open conflict of a waiting outage is what lets its
/// decisions go.
pub proof fn last_resolution_releases_forwarding(f: Fallback, g: Fallback, r: Reconciliation, after: Reconciliation, i: int)
    requires
        f.forwarding == Forwarding::Waiting,
        f.reconciliation == Some(Ok::<Reconciliation, String>(r)),
        r.conflicts@.len() == 1,
        0 <= i < r.conflicts@.len(),
        after.conflicts@ == r.conflicts@.remove(i),
        g.reconciliation == Some(Ok::<Reconciliation, String>(after)),
        same_but_reconciliation(g, f),
    ensures
        ready_to_forward(g),
{
}

/// The rule and the people between them account for every conflict the merge reported,
/// each once: a conflict is either settled by the rule or left to a person.
pub proof fn every_conflict_settled_or_left(judged: Seq<(DecisionConflict, Option<Verdict>)>)
    ensures
        ruled(judged).len() + unranked(judged).len() == judged.len(),
    decreases judged.len(),
{
    if judged.len() > 0 {
        every_conflict_settled_or_left(judged.drop_last());
    }
}

/// The lapse is applied once per outage: an outage whose delegations have lapsed is never
/// asked to apply it again.
pub proof fn lapse_applied_once(f: Fallback, lapsed_now: bool)
    requires
        f.lapsed,
    ensures
        !(!f.lapsed && lapsed_now),
{
}

proof fn judged_are_ruled_or_unranked(judged: Seq<(DecisionConflict, Option<Verdict>)>)
    ensures
        ruled(judged).len() + unranked(judged).len() == judged.len(),
    decreases judged.len(),
{
    if judged.len() > 0 {
        judged_are_ruled_or_unranked(judged.drop_last());
    }
}

/// Every conflict the merge reported is on the record at the switch back, whichever way it
/// was settled: with the merge just computed, the count the switch records is the number
/// of conflicts the merge judged, those the rule ranked and those it left to a person.
pub proof fn every_judged_conflict_is_counted(outcome: HistoryOutcome, r: Result<Reconciliation, String>)
    requires
        merge_result(outcome, r),
        r is Ok,
    ensures
        match outcome {
            HistoryOutcome::Complete { judged, .. } => judged@.len() <= usize::MAX ==> switch_counts(r).1 == judged@.len(),
            _ => false,
        },
{
    match outcome {
        HistoryOutcome::Complete { judged, .. } => judged_are_ruled_or_unranked(judged@),
        _ => {},
    }
}

/// A person resolving a conflict does not change how many are on the record: the one
/// resolved leaves the conflicts left to a person and joins those resolved.
pub proof fn a_resolution_keeps_the_count(before: Reconciliation, after: Reconciliation, i: int, resolution: (PlanId, bool))
    requires
        0 <= i < before.conflicts@.len(),
        after.conflicts@ == before.conflicts@.remove(i),
        after.resolved@ == before.resolved@.push(resolution),
        after.arbitrated@ == before.arbitrated@,
    ensures
        switch_counts(Ok::<Reconciliation, String>(after)).1 == switch_counts(Ok::<Reconciliation, String>(before)).1,
{
}

} // verus!
