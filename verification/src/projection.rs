//! Whose approval queue is in force, and the node's queue while it is the node's.
//!
//! While a desktop is linked the node holds the queue and the desktop submits nothing;
//! while it is cut off, or deployed with no node at all, its own desk decides. A linked
//! desktop projects the node's queue, says what the node answered to its decisions, and
//! counts what it has seen of the node's queue, never a tally that could drift from it.

use vstd::prelude::*;
use crate::text::{decimal, push_decimal, push_str};

verus! {

/// Where this desktop's services run.
#[derive(Debug, Clone, PartialEq, Eq)]
pub enum Backend {
    /// Embedded in this desktop: deployed on its own, or cut off from its node.
    Embedded,
    /// On a node this desktop is linked to.
    Remote { endpoint: String },
}

/// Whose approval queue this desktop is showing and deciding in.
#[derive(Debug, Clone, PartialEq, Eq)]
pub enum QueueInForce {
    /// The node's: this desktop shows the node's queue and decides through its route.
    Node { endpoint: String },
    /// This desktop's own, because it is cut off from its node or was deployed with none.
    ThisDesktop,
}

/// Which queue is in force: the node's while the backend is the node, this desktop's
/// otherwise.
pub fn in_force(backend: &Backend) -> (queue: QueueInForce)
    ensures
        match backend {
            Backend::Remote { endpoint } => queue matches QueueInForce::Node { endpoint: e } && e@ == endpoint@,
            Backend::Embedded => queue is ThisDesktop,
        },
{
    match backend {
        Backend::Remote { endpoint } => QueueInForce::Node { endpoint: endpoint.clone() },
        Backend::Embedded => QueueInForce::ThisDesktop,
    }
}

/// Whether the node holds the queue right now.
pub fn node_holds_the_queue(backend: &Backend) -> (holds: bool)
    ensures
        holds == backend is Remote,
{
    matches!(in_force(backend), QueueInForce::Node { .. })
}

/// An item on the node's approval queue.
#[derive(Debug, Clone, Copy, PartialEq, Eq, Structural)]
pub struct PendingApprovalId(pub u64);

/// What the node answered to a decision this desktop posted.
#[derive(Debug, Clone, PartialEq, Eq)]
pub enum DecisionAnswer {
    /// Recorded: the item leaving the queue is the acknowledgement.
    Recorded,
    /// Refused, with the refusal in words.
    Refused { sentence: String },
    /// Not taken at all.
    Rejected { status: u16, reason: String },
}

/// The node's answer to the decision this desktop last posted.
#[derive(Debug, Clone, PartialEq, Eq)]
pub struct DecisionOutcome {
    pub item: PendingApprovalId,
    pub answer: DecisionAnswer,
}

/// A decision posted and not yet answered.
#[derive(Debug, Clone, Copy, PartialEq, Eq, Structural)]
pub struct OutboundDecision {
    pub item: PendingApprovalId,
    pub attempts: u32,
}

/// PN-07's answer line.
#[derive(Debug, Clone, PartialEq, Eq)]
pub enum AnswerLine {
    Waiting { attempts: u32 },
    Refused { sentence: String },
    Rejected { status: u16, reason: String },
}

/// The first decision in flight on `item`.
pub open spec fn first_in_flight(in_flight: Seq<OutboundDecision>, item: PendingApprovalId) -> Option<OutboundDecision>
    decreases in_flight.len(),
{
    if in_flight.len() == 0 {
        None
    } else if in_flight[0].item == item {
        Some(in_flight[0])
    } else {
        first_in_flight(in_flight.drop_first(), item)
    }
}

/// What the node has said about the decision taken on `item`: its answer when the answer
/// held is about `item` (none for a recorded decision, whose item leaving the queue is
/// the acknowledgement), else waiting while a post for it is in flight, else nothing.
pub fn answer_line(answer: &Option<DecisionOutcome>, in_flight: &[OutboundDecision], item: PendingApprovalId) -> (line: Option<AnswerLine>)
    ensures
        match answer {
            Some(o) if o.item == item => match o.answer {
                DecisionAnswer::Recorded => line is None,
                DecisionAnswer::Refused { sentence } => line matches Some(AnswerLine::Refused { sentence: s }) && s@ == sentence@,
                DecisionAnswer::Rejected { status, reason } => line matches Some(AnswerLine::Rejected { status: st, reason: r })
                    && st == status && r@ == reason@,
            },
            _ => match first_in_flight(in_flight@, item) {
                Some(d) => line == Some(AnswerLine::Waiting { attempts: d.attempts }),
                None => line is None,
            },
        },
{
    if let Some(outcome) = answer {
        if outcome.item == item {
            return match &outcome.answer {
                DecisionAnswer::Recorded => None,
                DecisionAnswer::Refused { sentence } => Some(AnswerLine::Refused { sentence: sentence.clone() }),
                DecisionAnswer::Rejected { status, reason } => Some(AnswerLine::Rejected { status: *status, reason: reason.clone() }),
            };
        }
    }
    proof {
        assert(in_flight@.skip(0) =~= in_flight@);
    }
    let mut i: usize = 0;
    while i < in_flight.len()
        invariant
            i <= in_flight@.len(),
            first_in_flight(in_flight@, item) == first_in_flight(in_flight@.skip(i as int), item),
            answer is None || answer->0.item != item,
        decreases in_flight@.len() - i,
    {
        proof {
            assert(in_flight@.skip(i as int).drop_first() =~= in_flight@.skip(i + 1));
        }
        if in_flight[i].item == item {
            assert(in_flight@.skip(i as int)[0] == in_flight@[i as int]);
            return Some(AnswerLine::Waiting { attempts: in_flight[i].attempts });
        }
        i = i + 1;
    }
    proof {
        assert(in_flight@.skip(i as int) =~= Seq::<OutboundDecision>::empty());
    }
    None
}

/// An item waiting on the node's queue, with the roles it is offered to in the order
/// they were added.
#[derive(Debug, Clone, PartialEq, Eq)]
pub struct QueueItem {
    pub item: PendingApprovalId,
    pub offered_to: Vec<String>,
    pub pre_delegated: bool,
}

/// How an item left the node's queue.
#[derive(Debug, Clone, PartialEq, Eq)]
pub enum EndedAs {
    /// Somebody decided it, as the node recorded them.
    Decided { accepted: bool, operator: Option<String>, role: Option<String> },
    /// Its window closed with nobody deciding.
    Expired,
}

/// An item this desktop saw leave the node's queue.
#[derive(Debug, Clone, PartialEq, Eq)]
pub struct EndedItem {
    pub item: Option<PendingApprovalId>,
    pub ended: EndedAs,
}

/// The node's queue in the period, as PN-17 reports it.
#[derive(Debug, Clone, Default, PartialEq, Eq)]
pub struct NodeQueueStats {
    pub pending: usize,
    pub decided: usize,
    pub expired: usize,
    /// Items waiting that are offered to more than one role: escalation added at least one.
    pub escalated: usize,
    /// Decisions by the role that took them, in first-seen order; a decision recorded with
    /// no role is counted under a name that says so.
    pub by_role: Vec<(String, usize)>,
}

/// The name a decision is counted under: its role, or a name saying none was recorded.
pub open spec fn role_counted(role: Option<String>) -> Seq<char> {
    match role {
        Some(r) => r@,
        None => "no role recorded"@,
    }
}

/// Whether `i` is the first entry of `tally` counting `role`.
pub open spec fn first_entry(tally: Seq<(Seq<char>, nat)>, role: Seq<char>, i: int) -> bool {
    &&& 0 <= i < tally.len()
    &&& tally[i].0 == role
    &&& forall|k: int| 0 <= k < i ==> tally[k].0 != role
}

/// One more decision by `role`: its entry counted up, or a new entry at the end.
pub open spec fn tally_one(tally: Seq<(Seq<char>, nat)>, role: Seq<char>) -> Seq<(Seq<char>, nat)> {
    if exists|i: int| first_entry(tally, role, i) {
        let i = choose|i: int| first_entry(tally, role, i);
        tally.update(i, (role, tally[i].1 + 1))
    } else {
        tally.push((role, 1nat))
    }
}

/// The decisions by role among `ended`, in first-seen order.
pub open spec fn tally_roles(ended: Seq<EndedItem>) -> Seq<(Seq<char>, nat)>
    decreases ended.len(),
{
    if ended.len() == 0 {
        Seq::empty()
    } else {
        let before = tally_roles(ended.drop_last());
        match ended.last().ended {
            EndedAs::Decided { role, .. } => tally_one(before, role_counted(role)),
            EndedAs::Expired => before,
        }
    }
}

/// How many of `ended` were decided.
pub open spec fn count_decided(ended: Seq<EndedItem>) -> nat
    decreases ended.len(),
{
    if ended.len() == 0 {
        0
    } else {
        count_decided(ended.drop_last()) + if ended.last().ended is Decided { 1nat } else { 0nat }
    }
}

/// How many of `items` are offered to more than one role.
pub open spec fn count_escalated(items: Seq<QueueItem>) -> nat
    decreases items.len(),
{
    if items.len() == 0 {
        0
    } else {
        count_escalated(items.drop_last()) + if items.last().offered_to@.len() > 1 { 1nat } else { 0nat }
    }
}

/// The escalated count is the number of waiting items offered to more than one role,
/// however many roles that is: every such item counts once and no other item counts.
pub proof fn escalated_counts_every_item_offered_beyond_one_role(items: Seq<QueueItem>)
    ensures
        count_escalated(items) == items.filter(|q: QueueItem| q.offered_to@.len() > 1).len(),
    decreases items.len(),
{
    if items.len() > 0 {
        let prev = items.drop_last();
        escalated_counts_every_item_offered_beyond_one_role(prev);
        assert(items == prev.push(items.last()));
        prev.lemma_filter_push(items.last(), |q: QueueItem| q.offered_to@.len() > 1);
    } else {
        reveal(Seq::filter);
    }
}

/// The decided count is the number of items that left the queue decided; every other
/// item that left it expired.
pub proof fn decided_counts_every_decided_item(ended: Seq<EndedItem>)
    ensures
        count_decided(ended) == ended.filter(|e: EndedItem| e.ended is Decided).len(),
    decreases ended.len(),
{
    if ended.len() > 0 {
        let prev = ended.drop_last();
        decided_counts_every_decided_item(prev);
        assert(ended == prev.push(ended.last()));
        prev.lemma_filter_push(ended.last(), |e: EndedItem| e.ended is Decided);
    } else {
        reveal(Seq::filter);
    }
}

/// The tally's entries as counted.
pub open spec fn tally_view(by_role: Seq<(String, usize)>) -> Seq<(Seq<char>, nat)> {
    by_role.map_values(|e: (String, usize)| (e.0@, e.1 as nat))
}

fn count_role(by_role: &mut Vec<(String, usize)>, role: String)
    requires
        old(by_role)@.len() < usize::MAX,
        forall|k: int| 0 <= k < old(by_role)@.len() ==> old(by_role)@[k].1 < usize::MAX,
    ensures
        tally_view(final(by_role)@) == tally_one(tally_view(old(by_role)@), role@),
        final(by_role)@.len() <= old(by_role)@.len() + 1,
        forall|k: int| 0 <= k < final(by_role)@.len() ==> #[trigger] final(by_role)@[k].1 <= (
            if k < old(by_role)@.len() { old(by_role)@[k].1 + 1 } else { 1 }),
{
    let ghost before = tally_view(by_role@);
    let mut i: usize = 0;
    while i < by_role.len()
        invariant
            i <= by_role@.len(),
            by_role@ == old(by_role)@,
            before == tally_view(by_role@),
            forall|k: int| 0 <= k < i ==> by_role@[k].0@ != role@,
            forall|k: int| 0 <= k < by_role@.len() ==> by_role@[k].1 < usize::MAX,
        decreases by_role@.len() - i,
    {
        if by_role[i].0 == role {
            let n = by_role[i].1;
            let name = by_role[i].0.clone();
            by_role.set(i, (name, n + 1));
            proof {
                assert(first_entry(before, role@, i as int));
                let j = choose|j: int| first_entry(before, role@, j);
                if j < i {
                    assert(before[j].0 != role@);
                } else if j > i {
                    assert(before[i as int].0 != role@);
                }
                assert(tally_view(by_role@) =~= before.update(i as int, (role@, before[i as int].1 + 1)));
            }
            return;
        }
        i = i + 1;
    }
    by_role.push((role, 1));
    proof {
        assert(!exists|j: int| first_entry(before, role@, j));
        assert(tally_view(by_role@) =~= before.push((role@, 1nat)));
    }
}

/// How many of the node's queue items wait and were escalated, and what its ended items
/// were: decided, by the role that took them, or expired. Counted off what this desktop
/// has seen of the node's queue.
pub fn node_queue_stats(items: &[QueueItem], ended: &[EndedItem]) -> (stats: NodeQueueStats)
    ensures
        stats.pending == items@.len(),
        stats.escalated == count_escalated(items@),
        stats.decided == count_decided(ended@),
        stats.decided + stats.expired == ended@.len(),
        tally_view(stats.by_role@) == tally_roles(ended@),
{
    let mut escalated: usize = 0;
    let mut i: usize = 0;
    while i < items.len()
        invariant
            i <= items@.len(),
            escalated == count_escalated(items@.take(i as int)),
            escalated <= i,
        decreases items@.len() - i,
    {
        proof {
            assert(items@.take(i + 1).drop_last() =~= items@.take(i as int));
        }
        if items[i].offered_to.len() > 1 {
            escalated = escalated + 1;
        }
        i = i + 1;
    }
    assert(items@.take(items@.len() as int) =~= items@);
    let mut decided: usize = 0;
    let mut expired: usize = 0;
    let mut by_role: Vec<(String, usize)> = Vec::new();
    let mut j: usize = 0;
    while j < ended.len()
        invariant
            j <= ended@.len(),
            decided == count_decided(ended@.take(j as int)),
            decided + expired == j,
            tally_view(by_role@) == tally_roles(ended@.take(j as int)),
            by_role@.len() <= decided,
            forall|k: int| 0 <= k < by_role@.len() ==> by_role@[k].1 <= decided,
        decreases ended@.len() - j,
    {
        proof {
            assert(ended@.take(j + 1).drop_last() =~= ended@.take(j as int));
            assert(ended@.take(j + 1).last() == ended@[j as int]);
        }
        match &ended[j].ended {
            EndedAs::Decided { role, .. } => {
                let name = match role {
                    Some(r) => r.clone(),
                    None => String::from_str("no role recorded"),
                };
                let ghost before = by_role@;
                count_role(&mut by_role, name);
                proof {
                    assert forall|k: int| 0 <= k < by_role@.len() implies by_role@[k].1 <= decided + 1 by {
                        if k < before.len() {
                            assert(before[k].1 <= decided);
                        }
                    }
                }
                decided = decided + 1;
            },
            EndedAs::Expired => {
                expired = expired + 1;
            },
        }
        j = j + 1;
    }
    assert(ended@.take(ended@.len() as int) =~= ended@);
    NodeQueueStats { pending: items.len(), decided, expired, escalated, by_role }
}

/// Each role is counted once: no two entries of the tally name the same role.
pub open spec fn names_unique(tally: Seq<(Seq<char>, nat)>) -> bool {
    forall|a: int, b: int| 0 <= a < b < tally.len() ==> tally[a].0 != tally[b].0
}

/// The counts of a tally added up.
pub open spec fn tally_total(tally: Seq<(Seq<char>, nat)>) -> nat
    decreases tally.len(),
{
    if tally.len() == 0 {
        0
    } else {
        tally_total(tally.drop_last()) + tally.last().1
    }
}

proof fn total_of_update(tally: Seq<(Seq<char>, nat)>, i: int, entry: (Seq<char>, nat))
    requires
        0 <= i < tally.len(),
    ensures
        tally_total(tally.update(i, entry)) + tally[i].1 == tally_total(tally) + entry.1,
    decreases tally.len(),
{
    if i == tally.len() - 1 {
        assert(tally.update(i, entry).drop_last() =~= tally.drop_last());
    } else {
        total_of_update(tally.drop_last(), i, entry);
        assert(tally.update(i, entry).drop_last() =~= tally.drop_last().update(i, entry));
    }
}

/// The by-role tally accounts for every decision once and names each role once.
pub proof fn roles_tally_every_decision_once(ended: Seq<EndedItem>)
    ensures
        tally_total(tally_roles(ended)) == count_decided(ended),
        names_unique(tally_roles(ended)),
    decreases ended.len(),
{
    if ended.len() > 0 {
        roles_tally_every_decision_once(ended.drop_last());
        let before = tally_roles(ended.drop_last());
        match ended.last().ended {
            EndedAs::Decided { role, .. } => {
                let name = role_counted(role);
                assert forall|k: int| 0 <= k < before.len() && before[k].0 == name implies first_entry(before, name, k) by {}
                if exists|i: int| first_entry(before, name, i) {
                    let i = choose|i: int| first_entry(before, name, i);
                    total_of_update(before, i, (name, before[i].1 + 1));
                    let after = before.update(i, (name, before[i].1 + 1));
                    assert(tally_roles(ended) == after);
                    assert forall|a: int, b: int| 0 <= a < b < after.len() implies after[a].0 != after[b].0 by {
                        assert(after[a].0 == before[a].0);
                        assert(after[b].0 == before[b].0);
                    }
                } else {
                    let after = before.push((name, 1nat));
                    assert(after.drop_last() =~= before);
                    assert(tally_roles(ended) == after);
                    assert forall|a: int, b: int| 0 <= a < b < after.len() implies after[a].0 != after[b].0 by {
                        if b == before.len() {
                            if before[a].0 == name {
                                assert(first_entry(before, name, a));
                            }
                        }
                    }
                }
            },
            EndedAs::Expired => {},
        }
    }
}

/// What PN-06 says about whose queue this is.
#[derive(Debug, Clone, PartialEq, Eq)]
pub enum QueueAuthority {
    Node { endpoint: String },
    ThisDesktop,
}

/// Whose queue PN-06 shows: the node's, by its endpoint, while the backend is the node,
/// else this desktop's.
pub fn authority(backend: &Backend) -> (a: QueueAuthority)
    ensures
        match backend {
            Backend::Remote { endpoint } => a matches QueueAuthority::Node { endpoint: e } && e@ == endpoint@,
            Backend::Embedded => a == QueueAuthority::ThisDesktop,
        },
{
    match backend {
        Backend::Remote { endpoint } => QueueAuthority::Node { endpoint: endpoint.clone() },
        Backend::Embedded => QueueAuthority::ThisDesktop,
    }
}

/// Whom a decision is attributed to, as the node recorded them: an operator and role, an
/// operator whose role was not recorded, or, with no operator, `nobody`.
pub open spec fn who_decided(operator: Option<Seq<char>>, role: Option<Seq<char>>, nobody: Seq<char>) -> Seq<char> {
    match (operator, role) {
        (Some(o), Some(r)) => "operator "@ + o + " as "@ + r,
        (Some(o), None) => "operator "@ + o + ", whose role was not recorded"@,
        (None, _) => nobody,
    }
}

/// Whom a decision is attributed to, in words; `nobody` is said when the node recorded
/// no operator.
pub fn who(operator: Option<&str>, role: Option<&str>, nobody: &str) -> (words: String)
    ensures
        words@ == who_decided(
            match operator { Some(o) => Some(o@), None => None },
            match role { Some(r) => Some(r@), None => None },
            nobody@,
        ),
{
    match (operator, role) {
        (Some(o), Some(r)) => {
            let mut w = String::from_str("operator ");
            push_str(&mut w, o);
            push_str(&mut w, " as ");
            push_str(&mut w, r);
            w
        },
        (Some(o), None) => {
            let mut w = String::from_str("operator ");
            push_str(&mut w, o);
            push_str(&mut w, ", whose role was not recorded");
            w
        },
        (None, _) => String::from_str(nobody),
    }
}

/// Why a decision on the node's queue cannot even be posted: no link, or nobody signed
/// in, since the node authorizes every decision against the caller's role. Neither
/// records anything locally. Otherwise the operator the decision is posted as.
pub fn decision_poster(link_up: bool, signed_in: Option<u64>) -> (poster: Result<u64, &'static str>)
    ensures
        !link_up ==> (poster matches Err(e) && e@ == "this desktop decides through its node, and no link is up"@),
        link_up && signed_in is None ==> (poster matches Err(e) && e@ == "nobody is signed in: the node authorizes every decision against the caller's role, so a decision cannot be taken from this console until somebody signs in"@),
        link_up && signed_in is Some ==> poster == Ok::<u64, &'static str>(signed_in->0),
{
    if !link_up {
        return Err("this desktop decides through its node, and no link is up");
    }
    match signed_in {
        None => Err("nobody is signed in: the node authorizes every decision against the caller's role, so a decision cannot be taken from this console until somebody signs in"),
        Some(op) => Ok(op),
    }
}

/// The key a decision is posted under, so that the node takes a retry as the same
/// request: this console, the operator, and the item.
pub fn request_key(operator: u64, item: PendingApprovalId) -> (key: String)
    ensures
        key@ == "gungnir-app/"@ + decimal(operator as nat) + "/"@ + decimal(item.0 as nat),
{
    let mut k = String::from_str("gungnir-app/");
    push_decimal(&mut k, operator);
    push_str(&mut k, "/");
    push_decimal(&mut k, item.0);
    k
}

/// The items that left the node's queue, newest first, for PN-06's decided section.
pub fn decided_rows(ended: &[EndedItem]) -> (rows: Vec<&EndedItem>)
    ensures
        rows@.len() == ended@.len(),
        forall|k: int| 0 <= k < ended@.len() ==> *(#[trigger] rows@[k]) == ended@[ended@.len() - 1 - k],
{
    let mut rows: Vec<&EndedItem> = Vec::new();
    let mut i: usize = ended.len();
    while i > 0
        invariant
            i <= ended@.len(),
            rows@.len() == ended@.len() - i,
            forall|k: int| 0 <= k < rows@.len() ==> *(#[trigger] rows@[k]) == ended@[ended@.len() - 1 - k],
        decreases i,
    {
        i = i - 1;
        rows.push(&ended[i]);
    }
    rows
}

} // verus!
