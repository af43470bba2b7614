//! When the journal's retention runs, what this desktop keeps whatever its age, and how
//! each removal is made visible.
//!
//! A session is kept while anything in it is still in force: the live session; every
//! session holding an event for a collection requirement still open, since the
//! requirement is rebuilt from all of them; the sessions stating the highest requirement
//! identifier and issuing the highest launch-warning serial, since each serial continues
//! past the highest the journal holds; and the session an unfinished outage is recorded
//! in. A purge that fails raises one alert per distinct failure and is tried again at the
//! next interval.

use vstd::prelude::*;
use crate::text::{decimal, push_decimal, push_str};

verus! {

/// How often the purge runs after the first, in seconds.
pub const INTERVAL_S: u64 = 3600;

/// The sessions one recovered requirement has events in.
#[derive(Debug, Clone, PartialEq, Eq)]
pub struct RequirementSessions {
    pub requirement: u64,
    pub sessions: Vec<u64>,
}

/// What retention needs to know between runs, and what it has done.
#[derive(Debug)]
pub struct RetentionState {
    /// When the next purge is due, in seconds of the desktop's monotonic clock; `None`
    /// until the first, which runs on the first tick.
    pub next_due: Option<u64>,
    /// Sessions removed by this process, for the health line.
    pub purged_total: u64,
    /// The last failure, so the same one is not raised every hour.
    pub last_error: Option<String>,
    /// The sessions each recovered requirement has events in, by ascending identifier.
    pub requirement_sessions: Vec<RequirementSessions>,
    /// The session holding the highest launch-warning serial recovered.
    pub launch_warning_session: Option<u64>,
}

/// Whether requirement identifiers strictly ascend, as a map keyed by them keeps them.
pub open spec fn by_requirement(entries: Seq<RequirementSessions>) -> bool {
    forall|a: int, b: int| 0 <= a < b < entries.len() ==> entries[a].requirement < entries[b].requirement
}

impl RetentionState {
    /// When the next purge is due.
    pub open spec fn due_at(&self) -> Option<u64> {
        self.next_due
    }

    /// The last failure raised.
    pub open spec fn failure(&self) -> Option<Seq<char>> {
        match self.last_error {
            Some(e) => Some(e@),
            None => None,
        }
    }

    /// Built from what recovery found.
    pub fn from_recovery(requirement_sessions: Vec<RequirementSessions>, launch_warning_session: Option<u64>) -> (s: Self)
        ensures
            s.due_at() is None,
            s.purged_total == 0,
            s.failure() is None,
            s.requirement_sessions@ == requirement_sessions@,
            s.launch_warning_session == launch_warning_session,
    {
        RetentionState { next_due: None, purged_total: 0, last_error: None, requirement_sessions, launch_warning_session }
    }

    /// Whether the purge is due at `now_s`; when it is, the next one is set an interval
    /// later.
    pub fn due(&mut self, now_s: u64) -> (run: bool)
        requires
            now_s + INTERVAL_S <= u64::MAX,
        ensures
            run == match old(self).due_at() {
                None => true,
                Some(at) => now_s >= at,
            },
            final(self).due_at() == if run { Some((now_s + INTERVAL_S) as u64) } else { old(self).due_at() },
            final(self).purged_total == old(self).purged_total,
            final(self).failure() == old(self).failure(),
            final(self).requirement_sessions@ == old(self).requirement_sessions@,
            final(self).launch_warning_session == old(self).launch_warning_session,
    {
        let run = match self.next_due {
            None => true,
            Some(at) => now_s >= at,
        };
        if run {
            self.next_due = Some(now_s + INTERVAL_S);
        }
        run
    }
}

/// Whether `s` is among the sessions of the entry for requirement `r`.
pub open spec fn requirement_in(entries: Seq<RequirementSessions>, r: u64, s: u64) -> bool {
    exists|i: int| 0 <= i < entries.len() && entries[i].requirement == r && entries[i].sessions@.contains(s)
}

/// Whether `s` is among the sessions of some requirement in `open_requirements`.
pub open spec fn open_holds(entries: Seq<RequirementSessions>, open_requirements: Seq<u64>, s: u64) -> bool {
    exists|k: int| 0 <= k < open_requirements.len() && requirement_in(entries, open_requirements[k], s)
}

proof fn take_contains_step(v: Seq<u64>, i: int, x: u64)
    requires
        0 <= i < v.len(),
    ensures
        v.take(i + 1).contains(x) <==> v.take(i).contains(x) || v[i] == x,
{
    let t = v.take(i + 1);
    let u = v.take(i);
    if t.contains(x) {
        let j = choose|j: int| 0 <= j < t.len() && t[j] == x;
        if j < i {
            assert(u[j] == x);
        }
    }
    if u.contains(x) {
        let j = choose|j: int| 0 <= j < u.len() && u[j] == x;
        assert(t[j] == x);
    }
    if v[i] == x {
        assert(v.take(i + 1)[i] == x);
    }
}

proof fn requirement_step(entries: Seq<RequirementSessions>, i: int, r: u64, x: u64)
    requires
        0 <= i < entries.len(),
    ensures
        requirement_in(entries.take(i + 1), r, x) <==> requirement_in(entries.take(i), r, x)
            || (entries[i].requirement == r && entries[i].sessions@.contains(x)),
{
    let t = entries.take(i + 1);
    if requirement_in(t, r, x) {
        let e = choose|e: int| 0 <= e < t.len() && t[e].requirement == r && t[e].sessions@.contains(x);
        if e < i {
            assert(entries.take(i)[e] == t[e]);
        }
    }
    let u = entries.take(i);
    if requirement_in(u, r, x) {
        let e = choose|e: int| 0 <= e < u.len() && u[e].requirement == r && u[e].sessions@.contains(x);
        assert(t[e] == u[e]);
    }
    if entries[i].requirement == r && entries[i].sessions@.contains(x) {
        assert(t[i] == entries[i]);
    }
}

proof fn open_step(entries: Seq<RequirementSessions>, open: Seq<u64>, k: int, x: u64)
    requires
        0 <= k < open.len(),
    ensures
        open_holds(entries, open.take(k + 1), x) <==> open_holds(entries, open.take(k), x) || requirement_in(entries, open[k], x),
{
    let t = open.take(k + 1);
    if open_holds(entries, t, x) {
        let j = choose|j: int| 0 <= j < t.len() && requirement_in(entries, t[j], x);
        if j < k {
            assert(open.take(k)[j] == t[j]);
        }
    }
    let u = open.take(k);
    if open_holds(entries, u, x) {
        let j = choose|j: int| 0 <= j < u.len() && requirement_in(entries, u[j], x);
        assert(t[j] == u[j]);
    }
    if requirement_in(entries, open[k], x) {
        assert(t[k] == open[k]);
    }
}

/// The sessions this desktop must keep whatever their age.
pub open spec fn is_protected(
    live: Option<u64>,
    open_requirements: Seq<u64>,
    entries: Seq<RequirementSessions>,
    launch_warning_session: Option<u64>,
    outage_session: Option<u64>,
    s: u64,
) -> bool {
    ||| live == Some(s)
    ||| open_holds(entries, open_requirements, s)
    ||| (entries.len() > 0 && entries.last().sessions@.contains(s))
    ||| launch_warning_session == Some(s)
    ||| outage_session == Some(s)
}

fn keep(kept: &mut Vec<u64>, s: u64)
    requires
        old(kept)@.no_duplicates(),
    ensures
        final(kept)@.no_duplicates(),
        forall|x: u64| #[trigger] final(kept)@.contains(x) <==> old(kept)@.contains(x) || x == s,
{
    let mut i: usize = 0;
    while i < kept.len()
        invariant
            i <= kept@.len(),
            kept@.no_duplicates(),
            forall|k: int| 0 <= k < i ==> kept@[k] != s,
        decreases kept@.len() - i,
    {
        if kept[i] == s {
            assert(kept@.contains(s)) by {
                assert(kept@[i as int] == s);
            }
            return;
        }
        i = i + 1;
    }
    let ghost before = kept@;
    kept.push(s);
    assert forall|x: u64| kept@.contains(x) <==> before.contains(x) || x == s by {
        if kept@.contains(x) && x != s {
            let j = choose|j: int| 0 <= j < kept@.len() && kept@[j] == x;
            assert(before[j] == x);
        }
        if before.contains(x) {
            let j = choose|j: int| 0 <= j < before.len() && before[j] == x;
            assert(kept@[j] == x);
        }
        if x == s {
            assert(kept@[before.len() as int] == s);
        }
    }
}

fn keep_all(kept: &mut Vec<u64>, sessions: &Vec<u64>)
    requires
        old(kept)@.no_duplicates(),
    ensures
        final(kept)@.no_duplicates(),
        forall|x: u64| #[trigger] final(kept)@.contains(x) <==> old(kept)@.contains(x) || sessions@.contains(x),
{
    let ghost start = kept@;
    let mut i: usize = 0;
    while i < sessions.len()
        invariant
            i <= sessions@.len(),
            kept@.no_duplicates(),
            forall|x: u64| #[trigger] kept@.contains(x) <==> start.contains(x) || sessions@.take(i as int).contains(x),
        decreases sessions@.len() - i,
    {
        let ghost before = kept@;
        keep(kept, sessions[i]);
        proof {
            assert forall|x: u64| kept@.contains(x) <==> start.contains(x) || sessions@.take(i + 1).contains(x) by {
                take_contains_step(sessions@, i as int, x);
                assert(kept@.contains(x) <==> before.contains(x) || x == sessions@[i as int]);
                assert(before.contains(x) <==> start.contains(x) || sessions@.take(i as int).contains(x));
            }
        }
        i = i + 1;
    }
    assert(sessions@.take(sessions@.len() as int) =~= sessions@);
}

fn keep_requirement(kept: &mut Vec<u64>, entries: &Vec<RequirementSessions>, r: u64)
    requires
        old(kept)@.no_duplicates(),
    ensures
        final(kept)@.no_duplicates(),
        forall|x: u64| #[trigger] final(kept)@.contains(x) <==> old(kept)@.contains(x) || requirement_in(entries@, r, x),
{
    let ghost start = kept@;
    let mut i: usize = 0;
    while i < entries.len()
        invariant
            i <= entries@.len(),
            kept@.no_duplicates(),
            forall|x: u64| #[trigger] kept@.contains(x) <==> start.contains(x) || requirement_in(entries@.take(i as int), r, x),
        decreases entries@.len() - i,
    {
        let ghost before = kept@;
        let hit = entries[i].requirement == r;
        if hit {
            keep_all(kept, &entries[i].sessions);
        }
        proof {
            assert forall|x: u64| #[trigger] kept@.contains(x) <==> start.contains(x) || requirement_in(entries@.take(i + 1), r, x) by {
                requirement_step(entries@, i as int, r, x);
                if hit {
                    assert(kept@.contains(x) <==> before.contains(x) || entries@[i as int].sessions@.contains(x));
                } else {
                    assert(kept@ == before);
                }
            }
        }
        i = i + 1;
    }
    assert(entries@.take(entries@.len() as int) =~= entries@);
}

/// The sessions this desktop must keep whatever their age, each once.
pub fn protected(
    live: Option<u64>,
    open_requirements: &[u64],
    state: &RetentionState,
    outage_session: Option<u64>,
) -> (kept: Vec<u64>)
    ensures
        kept@.no_duplicates(),
        forall|s: u64| kept@.contains(s) <==> is_protected(
            live,
            open_requirements@,
            state.requirement_sessions@,
            state.launch_warning_session,
            outage_session,
            s,
        ),
{
    let entries = &state.requirement_sessions;
    let mut kept: Vec<u64> = Vec::new();
    if let Some(s) = live {
        keep(&mut kept, s);
    }
    let mut k: usize = 0;
    while k < open_requirements.len()
        invariant
            k <= open_requirements@.len(),
            kept@.no_duplicates(),
            forall|s: u64| #[trigger] kept@.contains(s) <==> (live == Some(s) || open_holds(entries@, open_requirements@.take(k as int), s)),
        decreases open_requirements@.len() - k,
    {
        keep_requirement(&mut kept, entries, open_requirements[k]);
        proof {
            assert forall|s: u64| #[trigger] kept@.contains(s) <==> (live == Some(s) || open_holds(entries@, open_requirements@.take(k + 1), s)) by {
                open_step(entries@, open_requirements@, k as int, s);
            }
        }
        k = k + 1;
    }
    assert(open_requirements@.take(open_requirements@.len() as int) =~= open_requirements@);
    let n = entries.len();
    if n > 0 {
        keep_all(&mut kept, &entries[n - 1].sessions);
    }
    if let Some(s) = state.launch_warning_session {
        keep(&mut kept, s);
    }
    if let Some(s) = outage_session {
        keep(&mut kept, s);
    }
    kept
}

/// What a purge removed: sessions purged past the policy age, and sessions whose purge an
/// earlier run left unfinished and this one completed.
#[derive(Debug, Clone, PartialEq, Eq)]
pub struct PurgeOutcome {
    pub purged: Vec<u64>,
    pub completed: Vec<u64>,
}

/// Session numbers in decimal, separated by a comma and a space.
pub open spec fn session_list(s: Seq<u64>) -> Seq<char>
    decreases s.len(),
{
    if s.len() == 0 {
        Seq::empty()
    } else if s.len() == 1 {
        decimal(s[0] as nat)
    } else {
        session_list(s.drop_last()) + ", "@ + decimal(s.last() as nat)
    }
}

/// The alert for a purge that removed sessions.
pub open spec fn removal_alert(removed: Seq<u64>, max_age_days: u32) -> Seq<char> {
    "Retention removed "@ + decimal(removed.len()) + " session(s) not written for more than "@
        + decimal(max_age_days as nat) + " days: "@ + session_list(removed)
}

/// The alert for a purge that failed.
pub open spec fn failure_alert(error: Seq<char>) -> Seq<char> {
    "Journal retention failed ("@ + error + "); nothing is half-removed, and it is tried again in an hour"@
}

fn push_session_list(out: &mut String, sessions: &Vec<u64>)
    ensures
        final(out)@ == old(out)@ + session_list(sessions@),
{
    let mut i: usize = 0;
    while i < sessions.len()
        invariant
            i <= sessions@.len(),
            out@ == old(out)@ + session_list(sessions@.take(i as int)),
        decreases sessions@.len() - i,
    {
        proof {
            assert(sessions@.take(i + 1).drop_last() =~= sessions@.take(i as int));
            assert(sessions@.take(i + 1).last() == sessions@[i as int]);
        }
        if i > 0 {
            push_str(out, ", ");
        }
        push_decimal(out, sessions[i]);
        proof {
            if i == 0 {
                assert(sessions@.take(0) =~= Seq::<u64>::empty());
                assert(out@ =~= old(out)@ + session_list(sessions@.take(1)));
            } else {
                assert(out@ =~= old(out)@ + session_list(sessions@.take(i + 1)));
            }
        }
        i = i + 1;
    }
    assert(sessions@.take(sessions@.len() as int) =~= sessions@);
}

/// The failure retention remembers after a purge: the one it just met, or none after a
/// success.
pub open spec fn failure_after(outcome: Result<PurgeOutcome, String>) -> Option<Seq<char>> {
    match outcome {
        Err(e) => Some(e@),
        Ok(_) => None,
    }
}

/// The alert a purge raises, given the failure last raised: a failure unless it is that
/// one, and a removal when anything was removed.
pub open spec fn purge_alert(last: Option<Seq<char>>, outcome: Result<PurgeOutcome, String>, max_age_days: u32) -> Option<Seq<char>> {
    match outcome {
        Err(e) => if last == Some(e@) { None } else { Some(failure_alert(e@)) },
        Ok(o) => {
            let removed = o.purged@ + o.completed@;
            if removed.len() == 0 { None } else { Some(removal_alert(removed, max_age_days)) }
        },
    }
}

/// The text of an alert, if one is raised.
pub open spec fn said(alert: Option<String>) -> Option<Seq<char>> {
    match alert {
        Some(a) => Some(a@),
        None => None,
    }
}

/// One alert per distinct failure: a failure met again is not raised again, a different
/// one is, and a success in between lets the same failure be raised afresh.
pub proof fn a_failure_is_raised_once(last: Option<Seq<char>>, e: String, f: String, o: PurgeOutcome, max_age_days: u32)
    ensures
        purge_alert(failure_after(Err(e)), Err(e), max_age_days) is None,
        e@ != f@ ==> purge_alert(failure_after(Err(e)), Err(f), max_age_days) == Some(failure_alert(f@)),
        purge_alert(failure_after(Ok(o)), Err(e), max_age_days) == Some(failure_alert(e@)),
{
}

impl RetentionState {
    /// Take what a purge did. A failure raises an alert unless it is the failure last
    /// raised, and is tried again an interval later; a success clears the failure, adds
    /// the sessions removed to the total and names them in an alert, purged sessions
    /// first.
    pub fn after_purge(&mut self, outcome: Result<PurgeOutcome, String>, max_age_days: u32) -> (alert: Option<String>)
        requires
            outcome matches Ok(o) ==> old(self).purged_total + o.purged@.len() + o.completed@.len() <= u64::MAX,
        ensures
            final(self).due_at() == old(self).due_at(),
            final(self).requirement_sessions@ == old(self).requirement_sessions@,
            final(self).launch_warning_session == old(self).launch_warning_session,
            final(self).failure() == failure_after(outcome),
            said(alert) == purge_alert(old(self).failure(), outcome, max_age_days),
            match outcome {
                Err(e) => {
                    &&& final(self).purged_total == old(self).purged_total
                    &&& final(self).failure() == Some(e@)
                    &&& if old(self).failure() == Some(e@) {
                        alert is None
                    } else {
                        alert matches Some(a) && a@ == failure_alert(e@)
                    }
                },
                Ok(o) => {
                    let removed = o.purged@ + o.completed@;
                    &&& final(self).failure() is None
                    &&& final(self).purged_total == old(self).purged_total + removed.len()
                    &&& if removed.len() == 0 {
                        alert is None
                    } else {
                        alert matches Some(a) && a@ == removal_alert(removed, max_age_days)
                    }
                },
            },
    {
        match outcome {
            Err(said) => {
                let repeat = match &self.last_error {
                    Some(last) => crate::text::str_eq(last.as_str(), said.as_str()),
                    None => false,
                };
                if repeat {
                    self.last_error = Some(said);
                    None
                } else {
                    let mut a = String::from_str("Journal retention failed (");
                    push_str(&mut a, said.as_str());
                    push_str(&mut a, "); nothing is half-removed, and it is tried again in an hour");
                    self.last_error = Some(said);
                    Some(a)
                }
            },
            Ok(o) => {
                self.last_error = None;
                let mut removed = o.purged;
                let mut completed = o.completed;
                removed.append(&mut completed);
                if removed.len() == 0 {
                    return None;
                }
                self.purged_total = self.purged_total + removed.len() as u64;
                let mut a = String::from_str("Retention removed ");
                push_decimal(&mut a, removed.len() as u64);
                push_str(&mut a, " session(s) not written for more than ");
                push_decimal(&mut a, max_age_days as u64);
                push_str(&mut a, " days: ");
                push_session_list(&mut a, &removed);
                Some(a)
            },
        }
    }
}

/// What is still in force is never purged: the live session, every session of an open
/// requirement, the session of the highest requirement identifier, the launch-warning
/// session and the outage's session are each among those kept.
pub proof fn what_is_in_force_is_kept(
    live: u64,
    open_requirements: Seq<u64>,
    entries: Seq<RequirementSessions>,
    launch_warning_session: u64,
    outage_session: u64,
    k: int,
    e: int,
    s: u64,
)
    requires
        0 <= k < open_requirements.len(),
        0 <= e < entries.len(),
        entries[e].requirement == open_requirements[k],
        entries[e].sessions@.contains(s),
    ensures
        is_protected(Some(live), open_requirements, entries, Some(launch_warning_session), Some(outage_session), live),
        is_protected(None, open_requirements, entries, None, None, s),
        is_protected(None, Seq::empty(), entries, None, None, entries.last().sessions@[0]) || entries.last().sessions@.len() == 0,
        is_protected(None, Seq::empty(), entries, Some(launch_warning_session), None, launch_warning_session),
        is_protected(None, Seq::empty(), entries, None, Some(outage_session), outage_session),
{
    assert(requirement_in(entries, open_requirements[k], s));
    if entries.last().sessions@.len() > 0 {
        assert(entries.last().sessions@.contains(entries.last().sessions@[0]));
    }
}

} // verus!
