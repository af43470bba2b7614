//! Which anomaly detectors are configured, and which of those cannot fire in this build:
//! an unconfigured detector is visibly absent rather than silently missing. And which of
//! what the detectors find this frame is new: an anomaly is raised once per kind and
//! subject for the session, not once per frame.

use vstd::prelude::*;
use std::collections::BTreeSet;

verus! {

/// What PN-09 says about one detector.
#[derive(Debug, Clone, Copy, PartialEq, Eq)]
pub enum DetectorStatus {
    Off,
    Running,
    /// Configured, and unable to evaluate in this build; the reason is shown.
    ConfiguredButUnable(&'static str),
}

/// Which detectors the baseline configures.
#[derive(Debug, Clone, Copy, PartialEq, Eq, Structural)]
pub struct AnomalyConfig {
    pub loitering: bool,
    pub kinematics: bool,
    pub feed: bool,
    pub cooperative: bool,
}

/// The four detectors in PN-09's order, each with its status: loitering cannot evaluate
/// without watched extents, kinematics and feed run when configured, and the cooperative
/// detector runs once an AIS feed is bound and cannot evaluate without one. `Off` is
/// said only of a detector nobody configured.
pub fn detector_status(config: AnomalyConfig, ais_feed_bound: bool) -> (status: Vec<(&'static str, DetectorStatus)>)
    ensures
        status@.len() == 4,
        status@[0].0@ == "loitering"@,
        status@[1].0@ == "implausible-kinematics"@,
        status@[2].0@ == "feed"@,
        status@[3].0@ == "cooperative"@,
        config.loitering ==> (status@[0].1 matches DetectorStatus::ConfiguredButUnable(why)
            && why@ == "no watched extents can be configured yet"@),
        !config.loitering ==> status@[0].1 == DetectorStatus::Off,
        status@[1].1 == if config.kinematics { DetectorStatus::Running } else { DetectorStatus::Off },
        status@[2].1 == if config.feed { DetectorStatus::Running } else { DetectorStatus::Off },
        config.cooperative && ais_feed_bound ==> status@[3].1 == DetectorStatus::Running,
        config.cooperative && !ais_feed_bound ==> (status@[3].1 matches DetectorStatus::ConfiguredButUnable(why)
            && why@ == "no AIS feed is bound (GAP-010)"@),
        !config.cooperative ==> status@[3].1 == DetectorStatus::Off,
{
    let mut status = Vec::new();
    status.push((
        "loitering",
        if config.loitering {
            DetectorStatus::ConfiguredButUnable("no watched extents can be configured yet")
        } else {
            DetectorStatus::Off
        },
    ));
    status.push(("implausible-kinematics", if config.kinematics { DetectorStatus::Running } else { DetectorStatus::Off }));
    status.push(("feed", if config.feed { DetectorStatus::Running } else { DetectorStatus::Off }));
    status.push((
        "cooperative",
        if !config.cooperative {
            DetectorStatus::Off
        } else if ais_feed_bound {
            DetectorStatus::Running
        } else {
            DetectorStatus::ConfiguredButUnable("no AIS feed is bound (GAP-010)")
        },
    ));
    status
}

/// What an anomaly is raised against.
#[derive(Debug, Clone, Copy, PartialEq, Eq, Structural)]
pub enum AnomalySubject {
    Track(u64),
    Sensor(u32),
}

/// An anomaly as the dedup reads it: the detector's code for its kind, and its subject.
pub type Finding = (u64, AnomalySubject);

/// The key an anomaly is raised once under: its kind, and its subject with a tag that
/// keeps a track and a sensor of one number apart.
pub open spec fn key_of(f: Finding) -> (u64, u8, u64) {
    match f.1 {
        AnomalySubject::Track(t) => (f.0, 0u8, t),
        AnomalySubject::Sensor(s) => (f.0, 1u8, s as u64),
    }
}

fn key(f: Finding) -> (k: (u64, u8, u64))
    ensures
        k == key_of(f),
{
    match f.1 {
        AnomalySubject::Track(t) => (f.0, 0u8, t),
        AnomalySubject::Sensor(s) => (f.0, 1u8, s as u64),
    }
}

/// The keys of every finding.
pub open spec fn keys_in(found: Seq<Finding>) -> Set<(u64, u8, u64)>
    decreases found.len(),
{
    if found.len() == 0 {
        Set::empty()
    } else {
        keys_in(found.drop_last()).insert(key_of(found.last()))
    }
}

/// Which findings are new, by index, in order: those whose key was neither raised before
/// nor found earlier this frame.
pub open spec fn fresh_in(raised: Set<(u64, u8, u64)>, found: Seq<Finding>) -> Seq<usize>
    decreases found.len(),
{
    if found.len() == 0 {
        Seq::empty()
    } else {
        let before = fresh_in(raised, found.drop_last());
        if raised.union(keys_in(found.drop_last())).contains(key_of(found.last())) {
            before
        } else {
            before.push((found.len() - 1) as usize)
        }
    }
}

/// Raise what is new among this frame's findings: the indices of the findings not raised
/// before this session nor earlier in the frame, in order, with every finding's key now
/// remembered as raised.
pub fn raise_new(raised: &mut BTreeSet<(u64, u8, u64)>, found: &[Finding]) -> (fresh: Vec<usize>)
    ensures
        final(raised)@ == old(raised)@.union(keys_in(found@)),
        fresh@ == fresh_in(old(raised)@, found@),
{
    let ghost before = raised@;
    let mut fresh: Vec<usize> = Vec::new();
    let mut i: usize = 0;
    while i < found.len()
        invariant
            i <= found@.len(),
            raised@ == before.union(keys_in(found@.take(i as int))),
            fresh@ == fresh_in(before, found@.take(i as int)),
        decreases found@.len() - i,
    {
        proof {
            assert(found@.take(i + 1).drop_last() =~= found@.take(i as int));
            assert(found@.take(i + 1).last() == found@[i as int]);
        }
        let k = key(found[i]);
        let added = raised.insert(k);
        if added {
            fresh.push(i);
        }
        proof {
            assert(raised@ =~= before.union(keys_in(found@.take(i + 1))));
        }
        i = i + 1;
    }
    proof {
        assert(found@.take(found@.len() as int) =~= found@);
    }
    fresh
}

proof fn keys_in_holds_every_key(found: Seq<Finding>, k: int)
    requires
        0 <= k < found.len(),
    ensures
        keys_in(found).contains(key_of(found[k])),
    decreases found.len(),
{
    if k < found.len() - 1 {
        keys_in_holds_every_key(found.drop_last(), k);
    }
}

proof fn nothing_fresh_when_all_raised(raised: Set<(u64, u8, u64)>, found: Seq<Finding>)
    requires
        forall|k: int| 0 <= k < found.len() ==> raised.contains(#[trigger] key_of(found[k])),
    ensures
        fresh_in(raised, found).len() == 0,
    decreases found.len(),
{
    if found.len() > 0 {
        assert forall|k: int| 0 <= k < found.drop_last().len() implies raised.contains(#[trigger] key_of(found.drop_last()[k])) by {
            assert(found.drop_last()[k] == found[k]);
        }
        nothing_fresh_when_all_raised(raised, found.drop_last());
        assert(raised.contains(key_of(found[found.len() - 1])));
    }
}

/// An anomaly is raised once per kind and subject for the session: every finding raised
/// is one of this frame's and was not raised before; no two raised in one frame share a
/// kind and subject; and once a frame's findings are raised, the same findings again
/// raise nothing. (`found` is a frame's findings, so its length fits a `usize`.)
pub proof fn anomalies_are_raised_once(raised: Set<(u64, u8, u64)>, found: Seq<Finding>)
    requires
        found.len() <= usize::MAX,
    ensures
        forall|a: int| 0 <= a < fresh_in(raised, found).len() ==> {
            let k = #[trigger] fresh_in(raised, found)[a];
            k < found.len() && !raised.contains(key_of(found[k as int]))
        },
        forall|a: int, b: int| 0 <= a < b < fresh_in(raised, found).len() ==>
            key_of(found[#[trigger] fresh_in(raised, found)[a] as int]) != key_of(found[#[trigger] fresh_in(raised, found)[b] as int]),
        fresh_in(raised.union(keys_in(found)), found).len() == 0,
    decreases found.len(),
{
    if found.len() > 0 {
        let prev = found.drop_last();
        anomalies_are_raised_once(raised, prev);
        let f = fresh_in(raised, found);
        let fp = fresh_in(raised, prev);
        let added = !raised.union(keys_in(prev)).contains(key_of(found.last()));
        assert(found.last() == found[found.len() - 1]);
        assert forall|a: int| 0 <= a < f.len() implies ({
            let k = #[trigger] f[a];
            k < found.len() && !raised.contains(key_of(found[k as int]))
        }) by {
            if a < fp.len() {
                assert(f[a] == fp[a]);
                assert(fp[a] < prev.len());
                assert(found[fp[a] as int] == prev[fp[a] as int]);
            } else {
                assert(added);
                assert(f[a] == found.len() - 1);
            }
        }
        assert forall|a: int, b: int| 0 <= a < b < f.len() implies
            key_of(found[#[trigger] f[a] as int]) != key_of(found[#[trigger] f[b] as int]) by {
            assert(f[a] == fp[a]);
            assert(fp[a] < prev.len());
            assert(found[fp[a] as int] == prev[fp[a] as int]);
            if b < fp.len() {
                assert(f[b] == fp[b]);
                assert(fp[b] < prev.len());
                assert(found[fp[b] as int] == prev[fp[b] as int]);
                assert(key_of(prev[fp[a] as int]) != key_of(prev[fp[b] as int]));
            } else {
                assert(added);
                assert(f[b] == found.len() - 1);
                keys_in_holds_every_key(prev, fp[a] as int);
            }
        }
    }
    let all = raised.union(keys_in(found));
    assert forall|k: int| 0 <= k < found.len() implies all.contains(#[trigger] key_of(found[k])) by {
        keys_in_holds_every_key(found, k);
    }
    nothing_fresh_when_all_raised(all, found);
}

} // verus!
