//! Cross-session identity as the desktop reads it: which retained sessions the resolver
//! is built from and what folding them hands it, the lineage lines PN-04 shows for a track, and how many of the tracks
//! the journal named no lineage in the product accounts for.
//!
//! The product assembles evidence and the analyst concludes: every line rests on the
//! session a track was seen in, and a correlation carries the confidence it was made at.
//! Coverage is measured, not assumed: a track nothing attributed is counted, so the
//! coverage figure cannot report a perfect score for an assessment that missed half the
//! picture.

use vstd::prelude::*;
use std::collections::BTreeSet;
use crate::journal::{SessionRead, first_unreadable, events_of, oldest_first, sessions_oldest_first};
use crate::text::{decimal, push_decimal, push_str};

verus! {

broadcast use vstd::seq_lib::group_to_multiset_ensures;

/// PN-04's lineage lines for a track, owned so the view can borrow them.
#[derive(Debug, Clone, PartialEq, Eq)]
pub struct OwnedLineage {
    pub session: u64,
    pub local_track: u64,
    pub basis: String,
}

/// A correlation the resolver made: the session-local track it attributed to the entity,
/// the similarity it was made at as shown to two decimals, and what it rested on.
#[derive(Debug, Clone, PartialEq, Eq)]
pub struct CorrelationView {
    pub track: u64,
    pub confidence: String,
    pub basis: String,
}

/// One entity's lineage: the session-local tracks attributed to it, and the correlations
/// that attributed them.
#[derive(Debug, Clone, PartialEq, Eq)]
pub struct LineageView {
    pub tracks: Vec<u64>,
    pub correlations: Vec<CorrelationView>,
}

/// Where a session-local track was first recorded.
#[derive(Debug, Clone, Copy, PartialEq, Eq, Structural)]
pub struct TrackSession {
    pub track: u64,
    pub session: u64,
}

/// Whether `i` is the first lineage of `lineages` that holds `track`.
pub open spec fn first_lineage_with(lineages: Seq<LineageView>, track: u64, i: int) -> bool {
    &&& 0 <= i < lineages.len()
    &&& lineages[i].tracks@.contains(track)
    &&& forall|k: int| 0 <= k < i ==> !lineages[k].tracks@.contains(track)
}

/// The session `track` was recorded in, or 0 when nothing was recorded of it.
pub open spec fn session_of(records: Seq<TrackSession>, track: u64) -> u64
    decreases records.len(),
{
    if records.len() == 0 {
        0
    } else if records[0].track == track {
        records[0].session
    } else {
        session_of(records.drop_first(), track)
    }
}

/// A track's session is the one its first record names, and a track with a record is never
/// shown under session 0 unless that record says 0.
pub proof fn a_track_is_shown_under_its_first_record(records: Seq<TrackSession>, track: u64, r: int)
    requires
        0 <= r < records.len(),
        records[r].track == track,
        forall|q: int| 0 <= q < r ==> records[q].track != track,
    ensures
        session_of(records, track) == records[r].session,
    decreases r,
{
    if r > 0 {
        let rest = records.drop_first();
        assert forall|q: int| 0 <= q < r - 1 implies rest[q].track != track by {
            assert(rest[q] == records[q + 1]);
        }
        assert(rest[r - 1] == records[r]);
        a_track_is_shown_under_its_first_record(rest, track, r - 1);
    }
}

/// What a track's membership rests on: the first correlation that attributed it, or its
/// session track id when no correlation did.
pub open spec fn basis_of(correlations: Seq<CorrelationView>, track: u64) -> Seq<char>
    decreases correlations.len(),
{
    if correlations.len() == 0 {
        "session track id"@
    } else if correlations[0].track == track {
        "similarity "@ + correlations[0].confidence@ + ": "@ + correlations[0].basis@
    } else {
        basis_of(correlations.drop_first(), track)
    }
}

/// The line PN-04 shows for one track of a lineage.
pub open spec fn lineage_line(records: Seq<TrackSession>, correlations: Seq<CorrelationView>, track: u64, line: OwnedLineage) -> bool {
    &&& line.session == session_of(records, track)
    &&& line.local_track == track
    &&& line.basis@ == basis_of(correlations, track)
}

fn find_lineage(lineages: &[LineageView], track: u64) -> (at: Option<usize>)
    ensures
        match at {
            Some(i) => first_lineage_with(lineages@, track, i as int),
            None => forall|k: int| 0 <= k < lineages@.len() ==> !lineages@[k].tracks@.contains(track),
        },
{
    let mut i: usize = 0;
    while i < lineages.len()
        invariant
            i <= lineages@.len(),
            forall|k: int| 0 <= k < i ==> !lineages@[k].tracks@.contains(track),
        decreases lineages@.len() - i,
    {
        if holds(&lineages[i].tracks, track) {
            return Some(i);
        }
        i = i + 1;
    }
    None
}

/// Whether `tracks` holds `track`.
pub fn holds(tracks: &Vec<u64>, track: u64) -> (b: bool)
    ensures
        b == tracks@.contains(track),
{
    let mut i: usize = 0;
    while i < tracks.len()
        invariant
            i <= tracks@.len(),
            forall|k: int| 0 <= k < i ==> tracks@[k] != track,
        decreases tracks@.len() - i,
    {
        if tracks[i] == track {
            assert(tracks@[i as int] == track);
            return true;
        }
        i = i + 1;
    }
    false
}

/// The session `track` was recorded in, or 0 when nothing was recorded of it.
pub fn session_for(records: &[TrackSession], track: u64) -> (session: u64)
    ensures
        session == session_of(records@, track),
{
    let mut i: usize = 0;
    assert(records@.skip(0) =~= records@);
    while i < records.len()
        invariant
            i <= records@.len(),
            session_of(records@, track) == session_of(records@.skip(i as int), track),
        decreases records@.len() - i,
    {
        proof {
            assert(records@.skip(i as int).drop_first() =~= records@.skip(i + 1));
        }
        if records[i].track == track {
            return records[i].session;
        }
        i = i + 1;
    }
    0
}

/// What a track's membership in its lineage rests on.
pub fn basis_for(correlations: &Vec<CorrelationView>, track: u64) -> (basis: String)
    ensures
        basis@ == basis_of(correlations@, track),
{
    let mut i: usize = 0;
    assert(correlations@.skip(0) =~= correlations@);
    while i < correlations.len()
        invariant
            i <= correlations@.len(),
            basis_of(correlations@, track) == basis_of(correlations@.skip(i as int), track),
        decreases correlations@.len() - i,
    {
        proof {
            assert(correlations@.skip(i as int).drop_first() =~= correlations@.skip(i + 1));
        }
        if correlations[i].track == track {
            let c = &correlations[i];
            let mut b = String::from_str("similarity ");
            push_str(&mut b, c.confidence.as_str());
            push_str(&mut b, ": ");
            push_str(&mut b, c.basis.as_str());
            return b;
        }
        i = i + 1;
    }
    String::from_str("session track id")
}

/// PN-04's lines for `track`: one per session-local track of the first lineage that holds
/// it, in the lineage's order, each with the session it was recorded in and what its
/// membership rests on. A track no lineage holds has none.
pub fn lineage_lines(lineages: &[LineageView], records: &[TrackSession], track: u64) -> (lines: Vec<OwnedLineage>)
    ensures
        match choose_lineage(lineages@, track) {
            None => lines@.len() == 0,
            Some(i) => {
                let l = lineages@[i];
                &&& lines@.len() == l.tracks@.len()
                &&& forall|k: int| 0 <= k < l.tracks@.len() ==>
                        lineage_line(records@, l.correlations@, l.tracks@[k], #[trigger] lines@[k])
            },
        },
{
    let at = find_lineage(lineages, track);
    proof {
        lineage_is_the_first(lineages@, track, at);
    }
    let i = match at {
        None => return Vec::new(),
        Some(i) => i,
    };
    let l = &lineages[i];
    let mut lines: Vec<OwnedLineage> = Vec::new();
    let mut k: usize = 0;
    while k < l.tracks.len()
        invariant
            k <= l.tracks@.len(),
            lines@.len() == k,
            forall|j: int| 0 <= j < k ==> lineage_line(records@, l.correlations@, l.tracks@[j], #[trigger] lines@[j]),
        decreases l.tracks@.len() - k,
    {
        let t = l.tracks[k];
        let session = session_for(records, t);
        let basis = basis_for(&l.correlations, t);
        lines.push(OwnedLineage { session, local_track: t, basis });
        k = k + 1;
    }
    lines
}

/// The first lineage that holds `track`, if any does.
pub open spec fn choose_lineage(lineages: Seq<LineageView>, track: u64) -> Option<int> {
    if exists|i: int| first_lineage_with(lineages, track, i) {
        Some(choose|i: int| first_lineage_with(lineages, track, i))
    } else {
        None
    }
}

proof fn lineage_is_the_first(lineages: Seq<LineageView>, track: u64, at: Option<usize>)
    requires
        match at {
            Some(i) => first_lineage_with(lineages, track, i as int),
            None => forall|k: int| 0 <= k < lineages.len() ==> !lineages[k].tracks@.contains(track),
        },
    ensures
        match at {
            Some(i) => choose_lineage(lineages, track) == Some(i as int),
            None => choose_lineage(lineages, track) is None,
        },
{
    match at {
        Some(i) => {
            let j = choose|j: int| first_lineage_with(lineages, track, j);
            if j < i {
                assert(!lineages[j].tracks@.contains(track));
            } else if j > i {
                assert(!lineages[i as int].tracks@.contains(track));
            }
        },
        None => {},
    }
}

/// Whether anything was recorded of where and when a lineage's tracks were seen; a
/// lineage with no record is dropped from the product.
pub open spec fn recorded(l: LineageView, records: Seq<TrackSession>) -> bool {
    exists|t: u64, r: int| l.tracks@.contains(t) && 0 <= r < records.len() && records[r].track == t
}

/// Whether some lineage the product keeps accounts for `track`.
pub open spec fn attributed(lineages: Seq<LineageView>, records: Seq<TrackSession>, track: u64) -> bool {
    exists|i: int| 0 <= i < lineages.len() && recorded(lineages[i], records) && lineages[i].tracks@.contains(track)
}

/// How many of the tracks seen no lineage the product keeps accounts for.
pub open spec fn unattributed_in(seen: Seq<u64>, lineages: Seq<LineageView>, records: Seq<TrackSession>) -> nat
    decreases seen.len(),
{
    if seen.len() == 0 {
        0
    } else {
        unattributed_in(seen.drop_last(), lineages, records) + if attributed(lineages, records, seen.last()) { 0nat } else { 1nat }
    }
}

/// Whether some track of `l`, at any place in the lineage, has a record of where and
/// when it was seen.
pub open spec fn some_track_recorded(l: LineageView, records: Seq<TrackSession>) -> bool {
    exists|k: int, r: int| #![trigger l.tracks@[k], records[r]]
        0 <= k < l.tracks@.len() && 0 <= r < records.len() && records[r].track == l.tracks@[k]
}

/// A lineage is kept exactly when one of its tracks, wherever it stands in the lineage,
/// was recorded; the order of a lineage's tracks does not matter.
pub proof fn a_lineage_is_kept_by_any_recorded_track(l: LineageView, records: Seq<TrackSession>)
    ensures
        recorded(l, records) <==> some_track_recorded(l, records),
{
    if recorded(l, records) {
        let (t, r) = choose|t: u64, r: int| l.tracks@.contains(t) && 0 <= r < records.len() && records[r].track == t;
        let k = choose|k: int| 0 <= k < l.tracks@.len() && l.tracks@[k] == t;
        assert(records[r].track == l.tracks@[k]);
    }
    if some_track_recorded(l, records) {
        let (k, r) = choose|k: int, r: int| #![trigger l.tracks@[k], records[r]]
            0 <= k < l.tracks@.len() && 0 <= r < records.len() && records[r].track == l.tracks@[k];
        assert(l.tracks@.contains(l.tracks@[k]));
    }
}

/// Whether `track` belongs to a lineage one of whose tracks was recorded.
pub open spec fn in_a_recorded_lineage(lineages: Seq<LineageView>, records: Seq<TrackSession>, track: u64) -> bool {
    exists|i: int| #![trigger lineages[i]]
        0 <= i < lineages.len() && lineages[i].tracks@.contains(track) && some_track_recorded(lineages[i], records)
}

/// Coverage counts what the product keeps: when every track seen belongs to a lineage one
/// of whose tracks was recorded, no track is unattributed.
pub proof fn tracks_of_kept_lineages_are_attributed(seen: Seq<u64>, lineages: Seq<LineageView>, records: Seq<TrackSession>)
    requires
        forall|s: int| 0 <= s < seen.len() ==> in_a_recorded_lineage(lineages, records, #[trigger] seen[s]),
    ensures
        unattributed_in(seen, lineages, records) == 0,
    decreases seen.len(),
{
    if seen.len() > 0 {
        let prev = seen.drop_last();
        assert forall|s: int| 0 <= s < prev.len() implies in_a_recorded_lineage(lineages, records, #[trigger] prev[s]) by {
            assert(prev[s] == seen[s]);
        }
        tracks_of_kept_lineages_are_attributed(prev, lineages, records);
        let last = seen.len() - 1;
        assert(in_a_recorded_lineage(lineages, records, seen[last]));
        let i = choose|i: int| #![trigger lineages[i]]
            0 <= i < lineages.len() && lineages[i].tracks@.contains(seen[last]) && some_track_recorded(lineages[i], records);
        a_lineage_is_kept_by_any_recorded_track(lineages[i], records);
        assert(attributed(lineages, records, seen.last()));
    }
}

fn is_recorded(l: &LineageView, records: &[TrackSession]) -> (b: bool)
    ensures
        b == recorded(*l, records@),
{
    let mut r: usize = 0;
    while r < records.len()
        invariant
            r <= records@.len(),
            forall|t: u64, q: int| l.tracks@.contains(t) && 0 <= q < r ==> records@[q].track != t,
        decreases records@.len() - r,
    {
        if holds(&l.tracks, records[r].track) {
            return true;
        }
        r = r + 1;
    }
    false
}

fn is_attributed(lineages: &[LineageView], records: &[TrackSession], track: u64) -> (b: bool)
    ensures
        b == attributed(lineages@, records@, track),
{
    let mut i: usize = 0;
    while i < lineages.len()
        invariant
            i <= lineages@.len(),
            forall|k: int| 0 <= k < i ==> !(recorded(lineages@[k], records@) && lineages@[k].tracks@.contains(track)),
        decreases lineages@.len() - i,
    {
        if is_recorded(&lineages[i], records) && holds(&lineages[i].tracks, track) {
            return true;
        }
        i = i + 1;
    }
    false
}

/// The tracks the desktop has seen that no entry in the product accounts for: tracks the
/// journal named without state to correlate, and tracks whose lineage was dropped because
/// nothing was recorded of where or when it was seen. The count saturates at `u32::MAX`.
pub fn unattributed(seen: &[u64], lineages: &[LineageView], records: &[TrackSession]) -> (n: u32)
    ensures
        n == if unattributed_in(seen@, lineages@, records@) > u32::MAX { u32::MAX as nat } else { unattributed_in(seen@, lineages@, records@) },
{
    let mut n: u32 = 0;
    let mut i: usize = 0;
    while i < seen.len()
        invariant
            i <= seen@.len(),
            n == if unattributed_in(seen@.take(i as int), lineages@, records@) > u32::MAX { u32::MAX as nat } else { unattributed_in(seen@.take(i as int), lineages@, records@) },
        decreases seen@.len() - i,
    {
        proof {
            assert(seen@.take(i + 1).drop_last() =~= seen@.take(i as int));
            assert(seen@.take(i + 1).last() == seen@[i as int]);
        }
        if !is_attributed(lineages, records, seen[i]) {
            n = n.saturating_add(1);
        }
        i = i + 1;
    }
    proof {
        assert(seen@.take(seen@.len() as int) =~= seen@);
    }
    n
}

/// Whether a list of sessions is in ascending order.
pub open spec fn ascending(s: Seq<u64>) -> bool {
    forall|a: int, b: int| 0 <= a < b < s.len() ==> s[a] <= s[b]
}

/// The sessions the resolver is built from: the newest `retention` of those the journal
/// holds, oldest first.
pub fn retained_sessions(sessions: Vec<u64>, retention: usize) -> (kept: Vec<u64>)
    ensures
        ascending(kept@),
        kept@.len() == if sessions@.len() < retention { sessions@.len() } else { retention as nat },
        exists|all: Seq<u64>|
            #![trigger all.to_multiset()]
            all.to_multiset() == sessions@.to_multiset() && ascending(all) && kept@ == all.skip(all.len() - kept@.len()),
{
    let ghost given = sessions@;
    let mut sorted: Vec<u64> = Vec::new();
    let mut rest = sessions;
    while rest.len() > 0
        invariant
            ascending(sorted@),
            sorted@.to_multiset().add(rest@.to_multiset()) == given.to_multiset(),
            sorted@.len() + rest@.len() == given.len(),
        decreases rest@.len(),
    {
        let ghost before = rest@;
        let x = rest.pop().unwrap();
        proof {
            assert(before =~= rest@.push(x));
            vstd::seq_lib::to_multiset_build(rest@, x);
        }
        let mut p: usize = 0;
        while p < sorted.len() && sorted[p] <= x
            invariant
                p <= sorted@.len(),
                forall|k: int| 0 <= k < p ==> sorted@[k] <= x,
            decreases sorted@.len() - p,
        {
            p = p + 1;
        }
        proof {
            vstd::seq_lib::to_multiset_insert(sorted@, p as int, x);
        }
        let ghost s0 = sorted@;
        sorted.insert(p, x);
        proof {
            assert(ascending(sorted@));
            assert(sorted@.to_multiset().add(rest@.to_multiset()) =~= given.to_multiset());
        }
    }
    let n = sorted.len();
    let skip = n.saturating_sub(retention);
    let mut kept: Vec<u64> = Vec::new();
    let mut i: usize = skip;
    while i < n
        invariant
            skip <= i <= n,
            n == sorted@.len(),
            kept@ == sorted@.subrange(skip as int, i as int),
        decreases n - i,
    {
        kept.push(sorted[i]);
        assert(kept@ =~= sorted@.subrange(skip as int, i + 1));
        i = i + 1;
    }
    proof {
        assert(sorted@.to_multiset() =~= given.to_multiset());
        assert(kept@ =~= sorted@.skip(sorted@.len() - kept@.len()));
    }
    kept
}

/// Why the fold of the retained sessions stopped short: the session list could not be
/// read at all.
pub fn unlisted(error: &str) -> (reason: String)
    ensures
        reason@ == "the session list could not be read: "@ + error@,
{
    let mut r = String::from_str("the session list could not be read: ");
    push_str(&mut r, error);
    r
}

/// Why the fold of the retained sessions stopped short: session `session` could not be
/// read.
pub fn unreadable_session(session: u64, error: &str) -> (reason: String)
    ensures
        reason@ == "session "@ + decimal(session as nat) + ": "@ + error@,
{
    let mut r = String::from_str("session ");
    push_decimal(&mut r, session);
    push_str(&mut r, ": ");
    push_str(&mut r, error);
    r
}

/// Coverage is measured, not assumed: the unattributed count never exceeds the tracks
/// seen, and with no lineage recorded every track seen is unattributed.
pub proof fn every_unaccounted_track_counts(seen: Seq<u64>, lineages: Seq<LineageView>, records: Seq<TrackSession>)
    ensures
        unattributed_in(seen, lineages, records) <= seen.len(),
        records.len() == 0 ==> unattributed_in(seen, lineages, records) == seen.len(),
    decreases seen.len(),
{
    if seen.len() > 0 {
        every_unaccounted_track_counts(seen.drop_last(), lineages, records);
    }
}

/// A tracking event as the identity fold reads it: a track seen with its state, which the
/// resolver can correlate, or a track named only by its identifier (coasting or deleted),
/// which it cannot.
#[derive(Debug, Clone, Copy, PartialEq, Eq, Structural)]
pub enum TrackingEvent {
    Sighted(u64),
    NamedOnly(u64),
}

/// One journal envelope: its sequence number, and the tracking event it carries, if any.
#[derive(Debug, Clone, Copy, PartialEq, Eq, Structural)]
pub struct Envelope {
    pub seq: u64,
    pub event: Option<TrackingEvent>,
}

/// A track seen with its state in a folded session, at an envelope: what the resolver is
/// handed, in journal order.
#[derive(Debug, Clone, Copy, PartialEq, Eq, Structural)]
pub struct Sighting {
    pub session: u64,
    pub seq: u64,
    pub track: u64,
}

/// What folding the retained sessions gives: the sessions folded, oldest first; every
/// sighting for the resolver, in order; every track the journal named, attributable or
/// not; and why the fold stopped short, when it did.
#[derive(Debug)]
pub struct IdentityFold {
    pub sessions: Vec<u64>,
    pub sightings: Vec<Sighting>,
    pub seen: BTreeSet<u64>,
    pub unreadable: Option<String>,
}

/// The newest `retention` sessions of `sorted`, oldest first.
pub open spec fn retained<E>(sorted: Seq<SessionRead<E>>, retention: nat) -> Seq<SessionRead<E>> {
    if sorted.len() <= retention {
        sorted
    } else {
        sorted.skip(sorted.len() - retention)
    }
}

/// The sessions the fold reads: all of `kept`, or those before the first that could not
/// be read.
pub open spec fn folded<E>(kept: Seq<SessionRead<E>>) -> Seq<SessionRead<E>> {
    if exists|i: int| first_unreadable(kept, i) {
        kept.take(choose|i: int| first_unreadable(kept, i))
    } else {
        kept
    }
}

/// The sightings in one session's envelopes, in order.
pub open spec fn session_sightings(session: u64, envelopes: Seq<Envelope>) -> Seq<Sighting>
    decreases envelopes.len(),
{
    if envelopes.len() == 0 {
        Seq::empty()
    } else {
        let before = session_sightings(session, envelopes.drop_last());
        match envelopes.last().event {
            Some(TrackingEvent::Sighted(track)) => before.push(Sighting { session, seq: envelopes.last().seq, track }),
            _ => before,
        }
    }
}

/// The sightings in readable sessions, session by session.
pub open spec fn sightings_in(sessions: Seq<SessionRead<Envelope>>) -> Seq<Sighting>
    decreases sessions.len(),
{
    if sessions.len() == 0 {
        Seq::empty()
    } else {
        sightings_in(sessions.drop_last()) + match sessions.last().events {
            Ok(envelopes) => session_sightings(sessions.last().session, envelopes@),
            Err(_) => Seq::empty(),
        }
    }
}

/// Every track the envelopes name, whether seen with its state or only by identifier.
pub open spec fn named_in(envelopes: Seq<Envelope>) -> Set<u64>
    decreases envelopes.len(),
{
    if envelopes.len() == 0 {
        Set::empty()
    } else {
        let before = named_in(envelopes.drop_last());
        match envelopes.last().event {
            Some(TrackingEvent::Sighted(track)) => before.insert(track),
            Some(TrackingEvent::NamedOnly(track)) => before.insert(track),
            None => before,
        }
    }
}

/// The identifiers of sessions, in order.
pub open spec fn session_ids<E>(sessions: Seq<SessionRead<E>>) -> Seq<u64> {
    sessions.map_values(|r: SessionRead<E>| r.session)
}

/// Fold the newest `retention` sessions of the journal, oldest first, into what the
/// resolver is built from. `journal` is the sessions as read, or why they could not be
/// listed. An unreadable session stops the fold there, keeping what came before, and the
/// reason says which session; a list that could not be read folds nothing.
pub fn recover(journal: Result<Vec<SessionRead<Envelope>>, String>, retention: usize) -> (fold: IdentityFold)
    ensures
        match journal {
            Err(e) => {
                &&& fold.sessions@.len() == 0
                &&& fold.sightings@.len() == 0
                &&& fold.seen@ == Set::<u64>::empty()
                &&& fold.unreadable matches Some(r) && r@ == "the session list could not be read: "@ + e@
            },
            Ok(sessions) => {
                let kept = retained(oldest_first(sessions@), retention as nat);
                let f = folded(kept);
                &&& fold.sessions@ == session_ids(f)
                &&& fold.sightings@ == sightings_in(f)
                &&& fold.seen@ == named_in(events_of(f))
                &&& if exists|i: int| first_unreadable(kept, i) {
                    let i = choose|i: int| first_unreadable(kept, i);
                    fold.unreadable matches Some(r)
                        && r@ == "session "@ + decimal(kept[i].session as nat) + ": "@ + kept[i].events->Err_0@
                } else {
                    fold.unreadable is None
                }
            },
        },
{
    let sessions = match journal {
        Err(e) => return IdentityFold {
            sessions: Vec::new(),
            sightings: Vec::new(),
            seen: BTreeSet::new(),
            unreadable: Some(unlisted(e.as_str())),
        },
        Ok(sessions) => sessions,
    };
    let ghost given = sessions@;
    let sorted = sessions_oldest_first(sessions);
    let n = sorted.len();
    let skip: usize = if n <= retention { 0 } else { n - retention };
    let ghost kept = retained(sorted@, retention as nat);
    proof {
        assert(kept =~= sorted@.skip(skip as int));
    }
    let mut ids: Vec<u64> = Vec::new();
    let mut sightings: Vec<Sighting> = Vec::new();
    let mut seen: BTreeSet<u64> = BTreeSet::new();
    let mut i: usize = skip;
    while i < n
        invariant
            journal matches Ok(s) && s@ == given,
            sorted@ == oldest_first(given),
            n == sorted@.len(),
            skip <= i <= n,
            kept == sorted@.skip(skip as int),
            kept == retained(sorted@, retention as nat),
            kept.len() == n - skip,
            forall|k: int| 0 <= k < i - skip ==> kept[k].events is Ok,
            ids@ == session_ids(kept.take(i - skip)),
            sightings@ == sightings_in(kept.take(i - skip)),
            seen@ == named_in(events_of(kept.take(i - skip))),
        decreases n - i,
    {
        let ghost j: int = i - skip;
        proof {
            assert(kept[j] == sorted@[i as int]);
            assert(kept.take(j + 1).drop_last() =~= kept.take(j));
            assert(kept.take(j + 1).last() == kept[j]);
        }
        match &sorted[i].events {
            Err(err) => {
                let reason = unreadable_session(sorted[i].session, err.as_str());
                proof {
                    assert(first_unreadable(kept, j));
                    let c = choose|c: int| first_unreadable(kept, c);
                    if c < j {
                        assert(kept[c].events is Ok);
                    } else if c > j {
                        assert(kept[j].events is Ok);
                    }
                    assert(c == j);
                    assert(folded(kept) == kept.take(j));
                    assert(kept[j].events->Err_0 == *err);
                }
                return IdentityFold { sessions: ids, sightings, seen, unreadable: Some(reason) };
            },
            Ok(envelopes) => {
                let session = sorted[i].session;
                let ghost before_sightings = sightings@;
                let ghost before_events = events_of(kept.take(j));
                let mut m: usize = 0;
                while m < envelopes.len()
                    invariant
                        m <= envelopes@.len(),
                        sightings@ == before_sightings + session_sightings(session, envelopes@.take(m as int)),
                        seen@ == named_in(before_events + envelopes@.take(m as int)),
                    decreases envelopes@.len() - m,
                {
                    proof {
                        assert(envelopes@.take(m + 1).drop_last() =~= envelopes@.take(m as int));
                        assert(envelopes@.take(m + 1).last() == envelopes@[m as int]);
                        assert((before_events + envelopes@.take(m + 1)).drop_last() =~= before_events + envelopes@.take(m as int));
                        assert((before_events + envelopes@.take(m + 1)).last() == envelopes@[m as int]);
                    }
                    let e = envelopes[m];
                    match e.event {
                        Some(TrackingEvent::Sighted(track)) => {
                            sightings.push(Sighting { session, seq: e.seq, track });
                            seen.insert(track);
                        },
                        Some(TrackingEvent::NamedOnly(track)) => {
                            seen.insert(track);
                        },
                        None => {},
                    }
                    proof {
                        assert(sightings@ =~= before_sightings + session_sightings(session, envelopes@.take(m + 1)));
                    }
                    m = m + 1;
                }
                proof {
                    assert(envelopes@.take(envelopes@.len() as int) =~= envelopes@);
                }
                ids.push(session);
                proof {
                    assert(ids@ =~= session_ids(kept.take(j + 1)));
                }
            },
        }
        i = i + 1;
    }
    proof {
        assert(kept.take(n - skip) =~= kept);
        assert(!exists|c: int| first_unreadable(kept, c));
    }
    IdentityFold { sessions: ids, sightings, seen, unreadable: None }
}

proof fn named_in_concat(a: Seq<Envelope>, b: Seq<Envelope>)
    ensures
        named_in(a + b) == named_in(a).union(named_in(b)),
    decreases b.len(),
{
    if b.len() == 0 {
        assert(a + b =~= a);
        assert(named_in(a).union(Set::empty()) =~= named_in(a));
    } else {
        named_in_concat(a, b.drop_last());
        assert((a + b).drop_last() =~= a + b.drop_last());
        assert((a + b).last() == b.last());
        assert(named_in(a + b) =~= named_in(a).union(named_in(b)));
    }
}

proof fn session_sightings_are_named(session: u64, envelopes: Seq<Envelope>)
    ensures
        forall|k: int| 0 <= k < session_sightings(session, envelopes).len() ==>
            named_in(envelopes).contains(#[trigger] session_sightings(session, envelopes)[k].track),
    decreases envelopes.len(),
{
    if envelopes.len() > 0 {
        let prev = envelopes.drop_last();
        session_sightings_are_named(session, prev);
        let all = session_sightings(session, envelopes);
        let before = session_sightings(session, prev);
        assert forall|k: int| 0 <= k < all.len() implies named_in(envelopes).contains(#[trigger] all[k].track) by {
            if k < before.len() {
                assert(all[k] == before[k]);
                assert(named_in(prev).contains(before[k].track));
            }
        }
    }
}

/// Coverage counts every track the fold saw: each sighting handed to the resolver is of a
/// track the fold also counts as seen, so no attributable track escapes the denominator.
pub proof fn every_sighting_is_counted(sessions: Seq<SessionRead<Envelope>>)
    ensures
        forall|k: int| 0 <= k < sightings_in(sessions).len() ==>
            named_in(events_of(sessions)).contains(#[trigger] sightings_in(sessions)[k].track),
    decreases sessions.len(),
{
    if sessions.len() > 0 {
        let prev = sessions.drop_last();
        every_sighting_is_counted(prev);
        let last = sessions.last();
        let mine = match last.events {
            Ok(envelopes) => envelopes@,
            Err(_) => Seq::<Envelope>::empty(),
        };
        named_in_concat(events_of(prev), mine);
        match last.events {
            Ok(envelopes) => session_sightings_are_named(last.session, envelopes@),
            Err(_) => {},
        }
        let all = sightings_in(sessions);
        let before = sightings_in(prev);
        assert forall|k: int| 0 <= k < all.len() implies named_in(events_of(sessions)).contains(#[trigger] all[k].track) by {
            if k < before.len() {
                assert(all[k] == before[k]);
            } else {
                match last.events {
                    Ok(envelopes) => {
                        assert(all[k] == session_sightings(last.session, envelopes@)[k - before.len()]);
                    },
                    Err(_) => {},
                }
            }
        }
    }
}

/// Whether an envelope names `track`, seen with its state or only by identifier.
pub open spec fn names(e: Envelope, track: u64) -> bool {
    e.event == Some(TrackingEvent::Sighted(track)) || e.event == Some(TrackingEvent::NamedOnly(track))
}

/// The tracks counted as seen are exactly those some envelope names, whichever way it
/// names them; an envelope with no tracking event names none.
pub proof fn seen_tracks_are_those_named(envelopes: Seq<Envelope>)
    ensures
        forall|t: u64| #[trigger] named_in(envelopes).contains(t) <==>
            exists|k: int| 0 <= k < envelopes.len() && names(#[trigger] envelopes[k], t),
    decreases envelopes.len(),
{
    if envelopes.len() > 0 {
        let prev = envelopes.drop_last();
        seen_tracks_are_those_named(prev);
        let last = envelopes.len() - 1;
        assert forall|t: u64| #[trigger] named_in(envelopes).contains(t) <==>
            exists|k: int| 0 <= k < envelopes.len() && names(#[trigger] envelopes[k], t) by {
            if named_in(envelopes).contains(t) {
                if named_in(prev).contains(t) {
                    let k = choose|k: int| 0 <= k < prev.len() && names(#[trigger] prev[k], t);
                    assert(envelopes[k] == prev[k]);
                } else {
                    assert(names(envelopes[last], t));
                }
            }
            if exists|k: int| 0 <= k < envelopes.len() && names(#[trigger] envelopes[k], t) {
                let k = choose|k: int| 0 <= k < envelopes.len() && names(#[trigger] envelopes[k], t);
                if k < last {
                    assert(prev[k] == envelopes[k]);
                    assert(named_in(prev).contains(t));
                }
            }
        }
    }
}

/// Every envelope that saw a track with its state reaches the resolver, as a sighting of
/// that track at that envelope in that session, and nothing else does.
pub proof fn every_sighted_envelope_is_handed_on(session: u64, envelopes: Seq<Envelope>)
    ensures
        session_sightings(session, envelopes).len()
            == envelopes.filter(|e: Envelope| e.event matches Some(TrackingEvent::Sighted(_))).len(),
        forall|k: int, t: u64| 0 <= k < envelopes.len() && envelopes[k].event == Some(TrackingEvent::Sighted(t)) ==>
            #[trigger] session_sightings(session, envelopes).contains(Sighting { session, seq: envelopes[k].seq, track: t }),
    decreases envelopes.len(),
{
    let sighted = |e: Envelope| e.event matches Some(TrackingEvent::Sighted(_));
    if envelopes.len() > 0 {
        let prev = envelopes.drop_last();
        every_sighted_envelope_is_handed_on(session, prev);
        assert(envelopes == prev.push(envelopes.last()));
        prev.lemma_filter_push(envelopes.last(), sighted);
        let all = session_sightings(session, envelopes);
        let before = session_sightings(session, prev);
        assert forall|k: int, t: u64| 0 <= k < envelopes.len() && envelopes[k].event == Some(TrackingEvent::Sighted(t)) implies
            #[trigger] all.contains(Sighting { session, seq: envelopes[k].seq, track: t }) by {
            if k < envelopes.len() - 1 {
                assert(prev[k] == envelopes[k]);
                let w = Sighting { session, seq: envelopes[k].seq, track: t };
                assert(before.contains(w));
                let j = choose|j: int| 0 <= j < before.len() && before[j] == w;
                assert(all[j] == w);
            } else {
                assert(all[before.len() as int] == Sighting { session, seq: envelopes[k].seq, track: t });
            }
        }
    } else {
        reveal(Seq::filter);
    }
}

} // verus!
