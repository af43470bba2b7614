//! Declaring a launch warning, and recovering those already issued from the journal.
//!
//! Nothing detects a launch on its own, so a warning is an operator's assertion: it is
//! refused to a role that may not release a product, and refused for a blank
//! description. Once issued a warning is never withdrawn, amended or answered, so
//! recovery is a straight append of every issued warning in journal order.

use vstd::prelude::*;
use crate::journal::{SessionRead, first_unreadable, events_of, oldest_first, sessions_oldest_first};
use crate::text::{decimal, push_decimal, push_str, trim, trimmed, all_white_space};

verus! {

/// Why a launch warning could not be declared.
#[derive(Debug, Clone, Copy, PartialEq, Eq, Structural)]
pub enum LaunchWarningError {
    Forbidden,
    EmptyDescription,
}

impl LaunchWarningError {
    /// The sentence the operator is shown.
    pub fn message(&self) -> (m: &'static str)
        ensures
            m@ == match self {
                LaunchWarningError::Forbidden => "operator lacks permission to release a launch warning"@,
                LaunchWarningError::EmptyDescription => "a launch warning needs a non-empty description of what launched"@,
            },
    {
        match self {
            LaunchWarningError::Forbidden => "operator lacks permission to release a launch warning",
            LaunchWarningError::EmptyDescription => "a launch warning needs a non-empty description of what launched",
        }
    }
}

/// A declared warning: this deployment's serial identifier for it, and what launched in
/// the operator's words.
#[derive(Debug, Clone, PartialEq, Eq)]
pub struct Declaration {
    pub id: String,
    pub what: String,
}

/// The identifier of the warning with serial `n`.
pub open spec fn warning_id(n: nat) -> Seq<char> {
    "launch-warning-"@ + decimal(n)
}

/// Declare a launch warning. `permitted` is whether the acting role may release a
/// product; `what` is the operator's description, kept without its surrounding white
/// space; `serial` is the last serial issued, continued past whatever the journal
/// recovered, and moves on only when a warning is declared.
pub fn declare(permitted: bool, what: &str, serial: &mut u64) -> (declared: Result<Declaration, LaunchWarningError>)
    requires
        *old(serial) < u64::MAX,
    ensures
        !permitted ==> declared == Err::<Declaration, LaunchWarningError>(LaunchWarningError::Forbidden),
        permitted && all_white_space(what@) ==> declared == Err::<Declaration, LaunchWarningError>(LaunchWarningError::EmptyDescription),
        declared is Ok <==> permitted && !all_white_space(what@),
        declared is Err ==> *final(serial) == *old(serial),
        match declared {
            Ok(d) => {
                &&& *final(serial) == *old(serial) + 1
                &&& d.id@ == warning_id(*final(serial) as nat)
                &&& trimmed(what@, d.what@)
            },
            Err(_) => true,
        },
{
    if !permitted {
        return Err(LaunchWarningError::Forbidden);
    }
    let what = trim(what);
    if what.as_str().is_empty() {
        return Err(LaunchWarningError::EmptyDescription);
    }
    *serial = *serial + 1;
    let mut id = String::from_str("launch-warning-");
    push_decimal(&mut id, *serial);
    Ok(Declaration { id, what })
}

/// What recovering issued launch warnings from the journal found. A journal that cannot
/// be read says so rather than presenting an empty list as though nothing had been
/// issued.
#[derive(Debug, Clone, PartialEq, Eq)]
pub enum Recovered {
    NothingIssued,
    FromJournal { sessions: usize },
    Unreadable { reason: String },
}

/// The warnings among a journal's events, in order; other events are `None`.
pub open spec fn issued_of<R>(events: Seq<Option<R>>) -> Seq<R>
    decreases events.len(),
{
    if events.len() == 0 {
        Seq::empty()
    } else {
        match events.last() {
            Some(r) => issued_of(events.drop_last()).push(r),
            None => issued_of(events.drop_last()),
        }
    }
}

/// What recovery makes of a journal whose sessions could be listed: every warning issued
/// in the sessions read, oldest session first, stopping at the first session that could
/// not be read.
pub open spec fn recovered_from<R>(sessions: Seq<SessionRead<Option<R>>>, issued: Seq<R>, outcome: Recovered) -> bool {
    let sorted = oldest_first(sessions);
    if exists|i: int| first_unreadable(sorted, i) {
        let i = choose|i: int| first_unreadable(sorted, i);
        &&& issued == issued_of(events_of(sorted.take(i)))
        &&& outcome matches Recovered::Unreadable { reason }
        &&& reason@ == "session "@ + decimal(sorted[i].session as nat) + ": "@ + sorted[i].events->Err_0@
    } else {
        &&& issued == issued_of(events_of(sorted))
        &&& outcome == if issued.len() == 0 {
            Recovered::NothingIssued
        } else {
            Recovered::FromJournal { sessions: sorted.len() as usize }
        }
    }
}

/// Rebuild the issued list from every session in the journal, oldest first. `journal` is
/// the sessions as read, or why the journal could not be listed.
pub fn recover<R>(journal: Result<Vec<SessionRead<Option<R>>>, String>) -> (recovered: (Vec<R>, Recovered))
    ensures
        match journal {
            Err(e) => recovered.0@.len() == 0 && (recovered.1 matches Recovered::Unreadable { reason } && reason@ == e@),
            Ok(sessions) => recovered_from(sessions@, recovered.0@, recovered.1),
        },
{
    let sessions = match journal {
        Err(e) => return (Vec::new(), Recovered::Unreadable { reason: e }),
        Ok(sessions) => sessions,
    };
    let ghost given = sessions@;
    let mut sorted = sessions_oldest_first(sessions);
    let ghost all = sorted@;
    let n = sorted.len();
    let mut issued: Vec<R> = Vec::new();
    let mut i: usize = 0;
    while i < n
        invariant
            journal matches Ok(s) && s@ == given,
            all == oldest_first(given),
            n == all.len(),
            i <= n,
            sorted@ == all.skip(i as int),
            forall|k: int| 0 <= k < i ==> all[k].events is Ok,
            issued@ == issued_of(events_of(all.take(i as int))),
        decreases n - i,
    {
        proof {
            assert(all.take(i + 1).drop_last() =~= all.take(i as int));
            assert(all.take(i + 1).last() == all[i as int]);
        }
        let session = sorted.remove(0);
        proof {
            assert(session == all[i as int]);
            assert(sorted@ =~= all.skip(i + 1));
        }
        match session.events {
            Err(err) => {
                let mut reason = String::from_str("session ");
                push_decimal(&mut reason, session.session);
                push_str(&mut reason, ": ");
                push_str(&mut reason, err.as_str());
                proof {
                    assert(first_unreadable(all, i as int));
                    let j = choose|j: int| first_unreadable(all, j);
                    if j < i {
                        assert(all[j].events is Ok);
                    } else if j > i {
                        assert(all[i as int].events is Ok);
                    }
                }
                return (issued, Recovered::Unreadable { reason });
            },
            Ok(events) => {
                let ghost before = events_of(all.take(i as int));
                let ghost evs = events@;
                let total = events.len();
                let mut rest = events;
                let mut j: usize = 0;
                while rest.len() > 0
                    invariant
                        j <= evs.len(),
                        rest@ == evs.skip(j as int),
                        rest@.len() == evs.len() - j,
                        evs.len() == total,
                        issued@ == issued_of(before + evs.take(j as int)),
                    decreases rest@.len(),
                {
                    let e = rest.remove(0);
                    proof {
                        assert(e == evs[j as int]);
                        assert((before + evs.take(j + 1)).drop_last() =~= before + evs.take(j as int));
                        assert((before + evs.take(j + 1)).last() == evs[j as int]);
                        assert(rest@ =~= evs.skip(j + 1));
                    }
                    if let Some(report) = e {
                        issued.push(report);
                    }
                    j = j + 1;
                }
                proof {
                    assert(evs.take(j as int) =~= evs);
                }
            },
        }
        i = i + 1;
    }
    proof {
        assert(all.take(n as int) =~= all);
        assert(!exists|j: int| first_unreadable(all, j));
    }
    let outcome = if issued.len() == 0 {
        Recovered::NothingIssued
    } else {
        Recovered::FromJournal { sessions: n }
    };
    (issued, outcome)
}

/// Recovery only appends: every warning the journal's readable sessions issued comes
/// back, in journal order, and nothing else does.
pub proof fn recovery_only_appends<R>(a: Seq<Option<R>>, b: Seq<Option<R>>)
    ensures
        issued_of(a + b) == issued_of(a) + issued_of(b),
    decreases b.len(),
{
    if b.len() == 0 {
        assert(a + b =~= a);
        assert(issued_of(a) + issued_of(b) =~= issued_of(a));
    } else {
        assert((a + b).drop_last() =~= a + b.drop_last());
        assert((a + b).last() == b.last());
        recovery_only_appends(a, b.drop_last());
        match b.last() {
            Some(r) => {
                assert(issued_of(a) + issued_of(b.drop_last()).push(r) =~= (issued_of(a) + issued_of(b.drop_last())).push(r));
            },
            None => {},
        }
    }
}

/// Warnings declared under different serials never share an identifier, so a new warning
/// cannot be mistaken for one already issued.
pub proof fn declared_ids_never_repeat(n: nat, m: nat)
    requires
        n != m,
    ensures
        warning_id(n) != warning_id(m),
{
    if warning_id(n) == warning_id(m) {
        let p = "launch-warning-"@;
        assert(warning_id(n).skip(p.len() as int) =~= decimal(n));
        assert(warning_id(m).skip(p.len() as int) =~= decimal(m));
        crate::text::decimal_is_injective(n, m);
    }
}

/// Every warning the events issued comes back and nothing else does: as many warnings as
/// there are warning events, and each warning event's warning among them.
pub proof fn every_issued_warning_comes_back<R>(events: Seq<Option<R>>)
    ensures
        issued_of(events).len() == events.filter(|e: Option<R>| e is Some).len(),
        forall|k: int| 0 <= k < events.len() && (#[trigger] events[k]) is Some ==>
            issued_of(events).contains(events[k]->0),
    decreases events.len(),
{
    if events.len() > 0 {
        let prev = events.drop_last();
        every_issued_warning_comes_back(prev);
        assert(events == prev.push(events.last()));
        prev.lemma_filter_push(events.last(), |e: Option<R>| e is Some);
        let all = issued_of(events);
        let before = issued_of(prev);
        assert forall|k: int| 0 <= k < events.len() && (#[trigger] events[k]) is Some implies
            all.contains(events[k]->0) by {
            if k < events.len() - 1 {
                assert(prev[k] == events[k]);
                assert(before.contains(prev[k]->0));
                let j = choose|j: int| 0 <= j < before.len() && before[j] == prev[k]->0;
                assert(all[j] == before[j]);
            } else {
                assert(events[k] == events.last());
                assert(all[before.len() as int] == events[k]->0);
            }
        }
    } else {
        reveal(Seq::filter);
    }
}

} // verus!
