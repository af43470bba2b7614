//! Collection requirements recovered from the journal.
//!
//! Requirements outlive a session: one stated on Monday is expected on Tuesday. The list
//! is rebuilt from every session in the journal, oldest first, because a requirement
//! stated in one session is answered in another and only the last word counts. A journal
//! that cannot be read says so rather than presenting an empty list as though nothing had
//! been asked for.

use vstd::prelude::*;
use crate::journal::{SessionRead, first_unreadable, events_of, oldest_first, sessions_oldest_first};
use crate::text::{decimal, push_decimal, push_str};
use crate::session::{Role, role_name, spec_role_name};

verus! {

/// How urgent a requirement is.
#[derive(Debug, Clone, Copy, PartialEq, Eq, Structural)]
pub enum AssetPriority {
    Low,
    Medium,
    High,
    Critical,
}

/// Who concurred or declined: a verified operator, or the role on watch with nobody
/// signed in.
#[derive(Debug, Clone, PartialEq, Eq)]
pub enum Concurrence {
    Operator { id: String, role: String },
    UnattributedRole { role: String },
}

/// Where a requirement stands.
#[derive(Debug, Clone, PartialEq, Eq)]
pub enum RequirementState {
    Stated,
    Tasked { by: Concurrence },
    Declined { by: Concurrence, reason: String },
    Satisfied { evidence: String },
    Lapsed,
}

/// A collection requirement.
#[derive(Debug, Clone, PartialEq, Eq)]
pub struct CollectionRequirement {
    pub id: u64,
    pub title: String,
    pub priority: AssetPriority,
    pub state: RequirementState,
}

/// What the journal records about requirements.
#[derive(Debug, Clone, PartialEq, Eq)]
pub enum RequirementEvent {
    Stated { requirement: CollectionRequirement },
    Tasked { requirement: u64, by: Concurrence },
    Declined { requirement: u64, by: Concurrence, reason: String },
    Satisfied { requirement: u64, evidence: String },
    Lapsed { requirement: u64 },
}

/// Why the requirement list is what it is, which is never simply "it is".
#[derive(Debug, Clone, PartialEq, Eq)]
pub enum Recovered {
    /// The journal was read and held no requirements.
    NothingStated,
    /// The journal was read and these came back.
    FromJournal { sessions: usize },
    /// The journal could not be read, so whether anything is outstanding is unknown.
    Unreadable { reason: String },
}

/// Whether `i` is the first requirement of `reqs` with identifier `id`.
pub open spec fn first_with_id(reqs: Seq<CollectionRequirement>, id: u64, i: int) -> bool {
    &&& 0 <= i < reqs.len()
    &&& reqs[i].id == id
    &&& forall|k: int| 0 <= k < i ==> reqs[k].id != id
}

/// The requirement `id` moved to `state`; a state change for a requirement nothing
/// stated is ignored rather than invented.
pub open spec fn with_state(reqs: Seq<CollectionRequirement>, id: u64, state: RequirementState) -> Seq<CollectionRequirement> {
    if exists|i: int| first_with_id(reqs, id, i) {
        let i = choose|i: int| first_with_id(reqs, id, i);
        reqs.update(i, CollectionRequirement { state, ..reqs[i] })
    } else {
        reqs
    }
}

/// One event folded into the list: a statement replaces the requirement it names or adds
/// it at the end; every other event moves the state of a stated requirement.
pub open spec fn apply_event(reqs: Seq<CollectionRequirement>, event: RequirementEvent) -> Seq<CollectionRequirement> {
    match event {
        RequirementEvent::Stated { requirement } => if exists|i: int| first_with_id(reqs, requirement.id, i) {
            let i = choose|i: int| first_with_id(reqs, requirement.id, i);
            reqs.update(i, requirement)
        } else {
            reqs.push(requirement)
        },
        RequirementEvent::Tasked { requirement, by } => with_state(reqs, requirement, RequirementState::Tasked { by }),
        RequirementEvent::Declined { requirement, by, reason } =>
            with_state(reqs, requirement, RequirementState::Declined { by, reason }),
        RequirementEvent::Satisfied { requirement, evidence } =>
            with_state(reqs, requirement, RequirementState::Satisfied { evidence }),
        RequirementEvent::Lapsed { requirement } => with_state(reqs, requirement, RequirementState::Lapsed),
    }
}

/// The journal's events folded in order into the list; events of other kinds are `None`.
pub open spec fn fold_events(events: Seq<Option<RequirementEvent>>) -> Seq<CollectionRequirement>
    decreases events.len(),
{
    if events.len() == 0 {
        Seq::empty()
    } else {
        match events.last() {
            Some(e) => apply_event(fold_events(events.drop_last()), e),
            None => fold_events(events.drop_last()),
        }
    }
}

/// A copy of a concurrence.
pub fn copy_concurrence(c: &Concurrence) -> (r: Concurrence)
    ensures
        r == *c,
{
    match c {
        Concurrence::Operator { id, role } => Concurrence::Operator { id: id.clone(), role: role.clone() },
        Concurrence::UnattributedRole { role } => Concurrence::UnattributedRole { role: role.clone() },
    }
}

/// A copy of a requirement's state.
pub fn copy_state(s: &RequirementState) -> (r: RequirementState)
    ensures
        r == *s,
{
    match s {
        RequirementState::Stated => RequirementState::Stated,
        RequirementState::Tasked { by } => RequirementState::Tasked { by: copy_concurrence(by) },
        RequirementState::Declined { by, reason } =>
            RequirementState::Declined { by: copy_concurrence(by), reason: reason.clone() },
        RequirementState::Satisfied { evidence } => RequirementState::Satisfied { evidence: evidence.clone() },
        RequirementState::Lapsed => RequirementState::Lapsed,
    }
}

/// A copy of a requirement.
pub fn copy_requirement(r: &CollectionRequirement) -> (c: CollectionRequirement)
    ensures
        c == *r,
{
    CollectionRequirement { id: r.id, title: r.title.clone(), priority: r.priority, state: copy_state(&r.state) }
}

fn find_id(reqs: &Vec<CollectionRequirement>, id: u64) -> (at: Option<usize>)
    ensures
        match at {
            Some(i) => first_with_id(reqs@, id, i as int),
            None => forall|k: int| 0 <= k < reqs@.len() ==> reqs@[k].id != id,
        },
{
    let mut i: usize = 0;
    while i < reqs.len() && reqs[i].id != id
        invariant
            i <= reqs@.len(),
            forall|k: int| 0 <= k < i ==> reqs@[k].id != id,
        decreases reqs@.len() - i,
    {
        i = i + 1;
    }
    if i < reqs.len() { Some(i) } else { None }
}

proof fn first_is_the_chosen(reqs: Seq<CollectionRequirement>, id: u64, i: int)
    requires
        first_with_id(reqs, id, i),
    ensures
        (choose|j: int| first_with_id(reqs, id, j)) == i,
{
    let j = choose|j: int| first_with_id(reqs, id, j);
    if j < i {
        assert(reqs[j].id != id);
    } else if j > i {
        assert(reqs[i].id != id);
    }
}

fn set_state(reqs: &mut Vec<CollectionRequirement>, id: u64, state: RequirementState)
    ensures
        final(reqs)@ == with_state(old(reqs)@, id, state),
{
    match find_id(reqs, id) {
        Some(i) => {
            proof {
                first_is_the_chosen(reqs@, id, i as int);
            }
            let mut r = copy_requirement(&reqs[i]);
            r.state = state;
            reqs.set(i, r);
        },
        None => {},
    }
}

/// Fold one event into the recovered list: a statement replaces the requirement it names
/// or adds it; a state change for a requirement nothing stated is ignored.
pub fn apply_recovered(requirements: &mut Vec<CollectionRequirement>, event: &RequirementEvent)
    ensures
        final(requirements)@ == apply_event(old(requirements)@, *event),
{
    match event {
        RequirementEvent::Stated { requirement } => match find_id(requirements, requirement.id) {
            Some(i) => {
                proof {
                    first_is_the_chosen(requirements@, requirement.id, i as int);
                }
                requirements.set(i, copy_requirement(requirement));
            },
            None => requirements.push(copy_requirement(requirement)),
        },
        RequirementEvent::Tasked { requirement, by } =>
            set_state(requirements, *requirement, RequirementState::Tasked { by: copy_concurrence(by) }),
        RequirementEvent::Declined { requirement, by, reason } => set_state(
            requirements,
            *requirement,
            RequirementState::Declined { by: copy_concurrence(by), reason: reason.clone() },
        ),
        RequirementEvent::Satisfied { requirement, evidence } =>
            set_state(requirements, *requirement, RequirementState::Satisfied { evidence: evidence.clone() }),
        RequirementEvent::Lapsed { requirement } => set_state(requirements, *requirement, RequirementState::Lapsed),
    }
}

/// What recovery makes of a readable journal: the fold of every session's events, oldest
/// session first, stopping at the first session that could not be read.
pub open spec fn recovered_from(sessions: Seq<SessionRead<Option<RequirementEvent>>>, reqs: Seq<CollectionRequirement>, outcome: Recovered) -> bool {
    let sorted = oldest_first(sessions);
    if exists|i: int| first_unreadable(sorted, i) {
        let i = choose|i: int| first_unreadable(sorted, i);
        &&& reqs == fold_events(events_of(sorted.take(i)))
        &&& outcome matches Recovered::Unreadable { reason }
        &&& reason@ == "session "@ + decimal(sorted[i].session as nat) + ": "@ + sorted[i].events->Err_0@
    } else {
        &&& reqs == fold_events(events_of(sorted))
        &&& outcome == if reqs.len() == 0 {
            Recovered::NothingStated
        } else {
            Recovered::FromJournal { sessions: sorted.len() as usize }
        }
    }
}

/// Rebuild the requirement list from every session in the journal, oldest first, folding
/// each requirement event in order. `journal` is the sessions as read, or why the journal
/// could not be listed. One unreadable session does not hide the sessions before it, but
/// the list is then incomplete and the outcome says so.
pub fn recover(journal: Result<Vec<SessionRead<Option<RequirementEvent>>>, String>) -> (recovered: (Vec<CollectionRequirement>, Recovered))
    ensures
        match journal {
            Err(e) => recovered.0@.len() == 0 && (recovered.1 matches Recovered::Unreadable { reason } && reason@ == e@),
            Ok(sessions) => recovered_from(sessions@, recovered.0@, recovered.1),
        },
{
    let sessions = match journal {
        Err(e) => return (Vec::new(), Recovered::Unreadable { reason: e }),
        Ok(sessions) => sessions,
    };
    let ghost given = sessions@;
    let sorted = sessions_oldest_first(sessions);
    let mut requirements: Vec<CollectionRequirement> = Vec::new();
    let mut i: usize = 0;
    while i < sorted.len()
        invariant
            journal matches Ok(s) && s@ == given,
            sorted@ == oldest_first(given),
            i <= sorted@.len(),
            forall|k: int| 0 <= k < i ==> sorted@[k].events is Ok,
            requirements@ == fold_events(events_of(sorted@.take(i as int))),
        decreases sorted@.len() - i,
    {
        proof {
            assert(sorted@.take(i + 1).drop_last() =~= sorted@.take(i as int));
            assert(sorted@.take(i + 1).last() == sorted@[i as int]);
        }
        match &sorted[i].events {
            Err(err) => {
                let mut reason = String::from_str("session ");
                push_decimal(&mut reason, sorted[i].session);
                push_str(&mut reason, ": ");
                push_str(&mut reason, err.as_str());
                proof {
                    assert(first_unreadable(sorted@, i as int));
                    let j = choose|j: int| first_unreadable(sorted@, j);
                    if j < i {
                        assert(sorted@[j].events is Ok);
                    } else if j > i {
                        assert(sorted@[i as int].events is Ok);
                    }
                }
                return (requirements, Recovered::Unreadable { reason });
            },
            Ok(events) => {
                let ghost before = events_of(sorted@.take(i as int));
                let mut j: usize = 0;
                while j < events.len()
                    invariant
                        j <= events@.len(),
                        requirements@ == fold_events(before + events@.take(j as int)),
                    decreases events@.len() - j,
                {
                    proof {
                        assert((before + events@.take(j + 1)).drop_last() =~= before + events@.take(j as int));
                        assert((before + events@.take(j + 1)).last() == events@[j as int]);
                    }
                    if let Some(event) = &events[j] {
                        apply_recovered(&mut requirements, event);
                    }
                    j = j + 1;
                }
                proof {
                    assert(events@.take(events@.len() as int) =~= events@);
                }
            },
        }
        i = i + 1;
    }
    proof {
        assert(sorted@.take(sorted@.len() as int) =~= sorted@);
        assert(!exists|j: int| first_unreadable(sorted@, j));
    }
    let outcome = if requirements.len() == 0 {
        Recovered::NothingStated
    } else {
        Recovered::FromJournal { sessions: sorted.len() }
    };
    (requirements, outcome)
}

/// No two recovered requirements share an identifier.
pub open spec fn ids_unique(reqs: Seq<CollectionRequirement>) -> bool {
    forall|a: int, b: int| 0 <= a < b < reqs.len() ==> reqs[a].id != reqs[b].id
}

proof fn unique_first(reqs: Seq<CollectionRequirement>, id: u64)
    requires
        ids_unique(reqs),
    ensures
        forall|k: int| 0 <= k < reqs.len() && reqs[k].id == id ==> first_with_id(reqs, id, k),
{
}

/// The recovered list holds each requirement once, however often the journal restated or
/// moved it.
pub proof fn recovered_requirements_are_unique(events: Seq<Option<RequirementEvent>>)
    ensures
        ids_unique(fold_events(events)),
    decreases events.len(),
{
    if events.len() > 0 {
        recovered_requirements_are_unique(events.drop_last());
        let before = fold_events(events.drop_last());
        match events.last() {
            Some(e) => {
                let id = match e {
                    RequirementEvent::Stated { requirement } => requirement.id,
                    RequirementEvent::Tasked { requirement, .. } => requirement,
                    RequirementEvent::Declined { requirement, .. } => requirement,
                    RequirementEvent::Satisfied { requirement, .. } => requirement,
                    RequirementEvent::Lapsed { requirement } => requirement,
                };
                unique_first(before, id);
                let after = apply_event(before, e);
                if exists|i: int| first_with_id(before, id, i) {
                    let i = choose|i: int| first_with_id(before, id, i);
                    assert forall|a: int, b: int| 0 <= a < b < after.len() implies after[a].id != after[b].id by {
                        assert(after[a].id == before[a].id);
                        assert(after[b].id == before[b].id);
                    }
                } else {
                    assert forall|a: int, b: int| 0 <= a < b < after.len() implies after[a].id != after[b].id by {
                        if b == before.len() && after.len() > before.len() {
                            assert(!first_with_id(before, id, a));
                        }
                    }
                }
            },
            None => {},
        }
    }
}

/// A state change for a requirement nothing stated leaves the list as it was.
pub proof fn unstated_requirement_is_not_invented(reqs: Seq<CollectionRequirement>, id: u64, state: RequirementState)
    requires
        forall|k: int| 0 <= k < reqs.len() ==> reqs[k].id != id,
    ensures
        with_state(reqs, id, state) == reqs,
{
}

/// A state change lands on the requirement it names and nowhere else: folding a tasking,
/// decline, answer or lapse of the requirement first listed at `i` leaves the list the
/// same length, keeps that requirement's identifier, title and priority, sets its state to
/// exactly what the event records (who tasked it; who declined it and why; the evidence
/// that answered it; or that it lapsed), and leaves every other requirement as it was.
pub proof fn a_state_change_lands_on_its_requirement(reqs: Seq<CollectionRequirement>, event: RequirementEvent, i: int)
    requires
        !(event is Stated),
        0 <= i < reqs.len(),
        forall|k: int| 0 <= k < i ==> reqs[k].id != reqs[i].id,
        reqs[i].id == match event {
            RequirementEvent::Tasked { requirement, .. } => requirement,
            RequirementEvent::Declined { requirement, .. } => requirement,
            RequirementEvent::Satisfied { requirement, .. } => requirement,
            RequirementEvent::Lapsed { requirement } => requirement,
            RequirementEvent::Stated { requirement } => requirement.id,
        },
    ensures
        apply_event(reqs, event).len() == reqs.len(),
        forall|k: int| 0 <= k < reqs.len() && k != i ==> #[trigger] apply_event(reqs, event)[k] == reqs[k],
        apply_event(reqs, event)[i].id == reqs[i].id,
        apply_event(reqs, event)[i].title == reqs[i].title,
        apply_event(reqs, event)[i].priority == reqs[i].priority,
        match event {
            RequirementEvent::Tasked { by, .. } => apply_event(reqs, event)[i].state == RequirementState::Tasked { by },
            RequirementEvent::Declined { by, reason, .. } =>
                apply_event(reqs, event)[i].state == RequirementState::Declined { by, reason },
            RequirementEvent::Satisfied { evidence, .. } =>
                apply_event(reqs, event)[i].state == RequirementState::Satisfied { evidence },
            RequirementEvent::Lapsed { .. } => apply_event(reqs, event)[i].state == RequirementState::Lapsed,
            RequirementEvent::Stated { .. } => true,
        },
{
    let id = reqs[i].id;
    assert(first_with_id(reqs, id, i));
    let c = choose|c: int| first_with_id(reqs, id, c);
    assert(c == i) by {
        if c < i {
            assert(reqs[c].id != id);
        } else if c > i {
            assert(reqs[i].id != id);
        }
    }
}

/// A statement is held as stated: after it the list holds the requirement exactly as the
/// event stated it; a restatement takes the place of the requirement of that identifier
/// without growing the list or touching any other requirement, and a first statement is
/// added at the end.
pub proof fn a_statement_is_held_as_stated(reqs: Seq<CollectionRequirement>, r: CollectionRequirement)
    ensures
        apply_event(reqs, RequirementEvent::Stated { requirement: r }).contains(r),
        (exists|k: int| 0 <= k < reqs.len() && reqs[k].id == r.id) ==> {
            let after = apply_event(reqs, RequirementEvent::Stated { requirement: r });
            &&& after.len() == reqs.len()
            &&& forall|k: int| 0 <= k < reqs.len() && reqs[k].id != r.id ==> #[trigger] after[k] == reqs[k]
        },
        (forall|k: int| 0 <= k < reqs.len() ==> reqs[k].id != r.id) ==>
            apply_event(reqs, RequirementEvent::Stated { requirement: r }) == reqs.push(r),
{
    let after = apply_event(reqs, RequirementEvent::Stated { requirement: r });
    if exists|k: int| 0 <= k < reqs.len() && reqs[k].id == r.id {
        let k0 = choose|k: int| 0 <= k < reqs.len() && reqs[k].id == r.id;
        assert(exists|i: int| first_with_id(reqs, r.id, i)) by {
            let i = first_index_with(reqs, r.id, k0);
            assert(first_with_id(reqs, r.id, i));
        }
        let i = choose|i: int| first_with_id(reqs, r.id, i);
        assert(after[i] == r);
    } else {
        assert(!exists|i: int| first_with_id(reqs, r.id, i));
        assert(after[reqs.len() as int] == r);
    }
}

proof fn first_index_with(reqs: Seq<CollectionRequirement>, id: u64, k: int) -> (i: int)
    requires
        0 <= k < reqs.len(),
        reqs[k].id == id,
    ensures
        first_with_id(reqs, id, i),
    decreases k,
{
    if exists|j: int| 0 <= j < k && reqs[j].id == id {
        let j = choose|j: int| 0 <= j < k && reqs[j].id == id;
        first_index_with(reqs, id, j)
    } else {
        k
    }
}

/// A priority's rank: critical above high above medium above low.
pub fn priority_rank(priority: AssetPriority) -> (rank: u8)
    ensures
        rank == match priority {
            AssetPriority::Low => 0u8,
            AssetPriority::Medium => 1u8,
            AssetPriority::High => 2u8,
            AssetPriority::Critical => 3u8,
        },
{
    match priority {
        AssetPriority::Low => 0,
        AssetPriority::Medium => 1,
        AssetPriority::High => 2,
        AssetPriority::Critical => 3,
    }
}

/// Who acted, said so that an unattributed role cannot be read as a person.
pub fn who(by: &Concurrence) -> (name: &str)
    ensures
        name@ == match by {
            Concurrence::Operator { id, .. } => id@,
            Concurrence::UnattributedRole { .. } => "the role on watch; nobody was signed in"@,
        },
{
    match by {
        Concurrence::Operator { id, .. } => id.as_str(),
        Concurrence::UnattributedRole { .. } => "the role on watch; nobody was signed in",
    }
}

/// How this deployment attributes an act: the verified operator when one is signed in,
/// and otherwise the role, with the statement that nobody was.
pub fn attribution(operator: Option<u64>, role: Role) -> (by: Concurrence)
    ensures
        match operator {
            Some(op) => by matches Concurrence::Operator { id, role: r } && id@ == decimal(op as nat) && r@ == spec_role_name(role),
            None => by matches Concurrence::UnattributedRole { role: r } && r@ == spec_role_name(role),
        },
{
    let r = String::from_str(role_name(role));
    match operator {
        Some(op) => {
            let mut id = String::new();
            push_decimal(&mut id, op);
            Concurrence::Operator { id, role: r }
        },
        None => Concurrence::UnattributedRole { role: r },
    }
}

/// Where a requirement stands, as PN-15 draws it, with who acted said so that an
/// unattributed role cannot be read as a person.
#[derive(Debug, Clone, PartialEq, Eq)]
pub enum Standing {
    Stated,
    Tasked { by: String },
    Satisfied { evidence: String },
    Declined { by: String, reason: String },
    Lapsed,
}

/// Who acted, in PN-15's words.
pub open spec fn who_acted(by: Concurrence) -> Seq<char> {
    match by {
        Concurrence::Operator { id, .. } => id@,
        Concurrence::UnattributedRole { .. } => "the role on watch; nobody was signed in"@,
    }
}

/// Where a requirement stands, as PN-15 draws it.
pub fn standing(state: &RequirementState) -> (s: Standing)
    ensures
        match *state {
            RequirementState::Stated => s == Standing::Stated,
            RequirementState::Tasked { by } => s matches Standing::Tasked { by: w } && w@ == who_acted(by),
            RequirementState::Satisfied { evidence } => s matches Standing::Satisfied { evidence: e } && e@ == evidence@,
            RequirementState::Declined { by, reason } => s matches Standing::Declined { by: w, reason: r }
                && w@ == who_acted(by) && r@ == reason@,
            RequirementState::Lapsed => s == Standing::Lapsed,
        },
{
    match state {
        RequirementState::Stated => Standing::Stated,
        RequirementState::Tasked { by } => Standing::Tasked { by: String::from_str(who(by)) },
        RequirementState::Satisfied { evidence } => Standing::Satisfied { evidence: evidence.clone() },
        RequirementState::Declined { by, reason } => Standing::Declined { by: String::from_str(who(by)), reason: reason.clone() },
        RequirementState::Lapsed => Standing::Lapsed,
    }
}

/// Store a requirement the tasking workflow changed, in place of the one with its
/// identifier; a requirement the list does not hold is not added.
pub fn store(requirements: &mut Vec<CollectionRequirement>, requirement: CollectionRequirement)
    ensures
        final(requirements)@ == if exists|i: int| first_with_id(old(requirements)@, requirement.id, i) {
            old(requirements)@.update(choose|i: int| first_with_id(old(requirements)@, requirement.id, i), requirement)
        } else {
            old(requirements)@
        },
{
    match find_id(requirements, requirement.id) {
        Some(i) => {
            proof {
                first_is_the_chosen(requirements@, requirement.id, i as int);
            }
            requirements.set(i, requirement);
        },
        None => {},
    }
}

/// The alert for a requirement whose needed-by time passed with nobody deciding.
pub fn lapsed_alert(requirement: u64) -> (alert: String)
    ensures
        alert@ == "Collection requirement "@ + decimal(requirement as nat)
            + " lapsed: its needed-by time passed with nobody deciding either way."@,
{
    let mut a = String::from_str("Collection requirement ");
    push_decimal(&mut a, requirement);
    push_str(&mut a, " lapsed: its needed-by time passed with nobody deciding either way.");
    a
}

/// What the audit trail records of a requirement action.
#[derive(Debug, Clone, Copy, PartialEq, Eq, Structural)]
pub enum RequirementAct {
    Stated,
    Tasked,
    Declined,
    Satisfied,
}

/// What the audit trail records of a requirement action.
pub fn audit_detail(act: RequirementAct, requirement: u64) -> (detail: String)
    ensures
        detail@ == match act {
            RequirementAct::Stated => "stated requirement "@,
            RequirementAct::Tasked => "tasked a sensor for requirement "@,
            RequirementAct::Declined => "declined requirement "@,
            RequirementAct::Satisfied => "satisfied requirement "@,
        } + decimal(requirement as nat),
{
    let mut d = String::from_str(match act {
        RequirementAct::Stated => "stated requirement ",
        RequirementAct::Tasked => "tasked a sensor for requirement ",
        RequirementAct::Declined => "declined requirement ",
        RequirementAct::Satisfied => "satisfied requirement ",
    });
    push_decimal(&mut d, requirement);
    d
}

} // verus!
