//! Warnings in flight to configured endpoints, and their outcomes swept every frame.
//!
//! Three outcomes, never collapsed: accepted leaves the warning sent until the party
//! acknowledges it; refused is the endpoint's decision, recorded with its body; and
//! unreachable is said. A warning that cannot be carried fails loudly, so the operator
//! warns by voice.

use vstd::prelude::*;
use crate::text::{decimal, push_decimal, push_str};

verus! {

/// What the endpoint made of a posted warning.
#[derive(Debug, Clone, PartialEq, Eq)]
pub enum DeliveryOutcome {
    Accepted,
    Refused { status: u16, body: String },
    Unreachable { reason: String },
}

/// A warning posted and not yet answered: the asset it protects, the track it is about,
/// the endpoint it went to, and the post in flight.
#[derive(Debug)]
pub struct PendingWarning<P> {
    pub asset: u64,
    pub track: u64,
    pub endpoint: String,
    pub in_flight: P,
}

/// A warning the endpoint would not carry, and why.
#[derive(Debug, Clone, PartialEq, Eq)]
pub struct WarningFailure {
    pub asset: u64,
    pub track: u64,
    pub reason: String,
}

/// Why a warning failed, for an outcome that fails it.
pub open spec fn failure_reason(endpoint: Seq<char>, outcome: DeliveryOutcome) -> Option<Seq<char>> {
    match outcome {
        DeliveryOutcome::Accepted => None,
        DeliveryOutcome::Refused { status, body } => Some(endpoint + " refused it: "@ + decimal(status as nat) + " "@ + body@),
        DeliveryOutcome::Unreachable { reason } => Some(endpoint + " unreachable: "@ + reason@),
    }
}

/// The posts still in flight after a sweep: those the endpoint has not answered, in order.
pub open spec fn still_pending<P>(polled: Seq<(PendingWarning<P>, Option<DeliveryOutcome>)>) -> Seq<PendingWarning<P>>
    decreases polled.len(),
{
    if polled.len() == 0 {
        Seq::empty()
    } else {
        let before = still_pending(polled.drop_last());
        match polled.last().1 {
            None => before.push(polled.last().0),
            Some(_) => before,
        }
    }
}

/// The failures a sweep found, in order.
pub open spec fn failures_of<P>(polled: Seq<(PendingWarning<P>, Option<DeliveryOutcome>)>) -> Seq<(u64, u64, Seq<char>)>
    decreases polled.len(),
{
    if polled.len() == 0 {
        Seq::empty()
    } else {
        let before = failures_of(polled.drop_last());
        let (p, o) = polled.last();
        match o {
            Some(outcome) => match failure_reason(p.endpoint@, outcome) {
                Some(r) => before.push((p.asset, p.track, r)),
                None => before,
            },
            None => before,
        }
    }
}

/// A failure as the sweep reports it.
pub open spec fn failure_view(f: WarningFailure) -> (u64, u64, Seq<char>) {
    (f.asset, f.track, f.reason@)
}

/// Sweep the warnings in flight, each with what polling its post found: still in flight,
/// or answered. Those not answered stay pending; a refusal or silence fails the warning
/// with the reason; an acceptance leaves the warning sent and the post done.
pub fn sweep_warnings<P>(polled: Vec<(PendingWarning<P>, Option<DeliveryOutcome>)>) -> (swept: (Vec<PendingWarning<P>>, Vec<WarningFailure>))
    ensures
        swept.0@ == still_pending(polled@),
        swept.1@.map_values(|f: WarningFailure| failure_view(f)) == failures_of(polled@),
{
    let ghost all = polled@;
    let mut keep: Vec<PendingWarning<P>> = Vec::new();
    let mut failed: Vec<WarningFailure> = Vec::new();
    let mut rest = polled;
    let n = rest.len();
    let mut i: usize = 0;
    while rest.len() > 0
        invariant
            i <= n,
            n == all.len(),
            rest@ == all.skip(i as int),
            rest@.len() == n - i,
            keep@ == still_pending(all.take(i as int)),
            failed@.map_values(|f: WarningFailure| failure_view(f)) == failures_of(all.take(i as int)),
        decreases rest@.len(),
    {
        let (p, outcome) = rest.remove(0);
        proof {
            assert((p, outcome) == all[i as int]);
            assert(rest@ =~= all.skip(i + 1));
            assert(all.take(i + 1).drop_last() =~= all.take(i as int));
            assert(all.take(i + 1).last() == all[i as int]);
        }
        let ghost before = failed@;
        match outcome {
            None => keep.push(p),
            Some(DeliveryOutcome::Accepted) => {},
            Some(DeliveryOutcome::Refused { status, body }) => {
                let mut reason = p.endpoint.clone();
                push_str(&mut reason, " refused it: ");
                push_decimal(&mut reason, status as u64);
                push_str(&mut reason, " ");
                push_str(&mut reason, body.as_str());
                failed.push(WarningFailure { asset: p.asset, track: p.track, reason });
                proof {
                    assert(failed@.map_values(|f: WarningFailure| failure_view(f)) =~= before.map_values(|f: WarningFailure| failure_view(f)).push(failure_view(failed@.last())));
                }
            },
            Some(DeliveryOutcome::Unreachable { reason: why }) => {
                let mut reason = p.endpoint.clone();
                push_str(&mut reason, " unreachable: ");
                push_str(&mut reason, why.as_str());
                failed.push(WarningFailure { asset: p.asset, track: p.track, reason });
                proof {
                    assert(failed@.map_values(|f: WarningFailure| failure_view(f)) =~= before.map_values(|f: WarningFailure| failure_view(f)).push(failure_view(failed@.last())));
                }
            },
        }
        i = i + 1;
    }
    proof {
        assert(all.take(n as int) =~= all);
    }
    (keep, failed)
}

/// The alert for a warning that was not delivered: the operator warns by voice.
pub fn undelivered_alert(track: u64, reason: &str) -> (alert: String)
    ensures
        alert@ == "warning because of track "@ + decimal(track as nat) + " was not delivered: "@ + reason@
            + "; warn by voice"@,
{
    let mut a = String::from_str("warning because of track ");
    push_decimal(&mut a, track);
    push_str(&mut a, " was not delivered: ");
    push_str(&mut a, reason);
    push_str(&mut a, "; warn by voice");
    a
}

/// How many of the polled posts the endpoint accepted.
pub open spec fn accepted_of<P>(polled: Seq<(PendingWarning<P>, Option<DeliveryOutcome>)>) -> nat
    decreases polled.len(),
{
    if polled.len() == 0 {
        0
    } else {
        accepted_of(polled.drop_last()) + if polled.last().1 == Some(DeliveryOutcome::Accepted) { 1nat } else { 0nat }
    }
}

/// No warning in flight is dropped in silence: after a sweep each is still pending,
/// failed with its reason, or accepted by its endpoint.
pub proof fn no_warning_is_dropped<P>(polled: Seq<(PendingWarning<P>, Option<DeliveryOutcome>)>)
    ensures
        still_pending(polled).len() + failures_of(polled).len() + accepted_of(polled) == polled.len(),
    decreases polled.len(),
{
    if polled.len() > 0 {
        no_warning_is_dropped(polled.drop_last());
    }
}

} // verus!
