//! MISB ST 0601 UAS metadata feeds: what the desktop says when one cannot be bound.
//!
//! A feed that cannot be opened is an alert, not a silent absence; a deployment with no
//! local frame binds nothing and says why.

use vstd::prelude::*;
use crate::text::{decimal, push_decimal, push_str};

verus! {

/// The alert when MISB feeds are configured and no local frame origin is declared.
pub fn no_frame_alert(feeds: usize) -> (alert: String)
    ensures
        alert@ == decimal(feeds as nat) + " MISB feed(s) configured and no local frame origin declared: no receiver is bound, because a position cannot be placed without one"@,
{
    let mut a = String::new();
    push_decimal(&mut a, feeds as u64);
    push_str(&mut a, " MISB feed(s) configured and no local frame origin declared: no receiver is bound, because a position cannot be placed without one");
    a
}

/// The alert for a MISB feed that could not be opened.
pub fn not_bound(feed: &str, error: &str) -> (alert: String)
    ensures
        alert@ == "MISB feed "@ + feed@ + " not bound: "@ + error@,
{
    let mut a = String::from_str("MISB feed ");
    push_str(&mut a, feed);
    push_str(&mut a, " not bound: ");
    push_str(&mut a, error);
    a
}

/// Why a feed's TCP address was refused.
pub fn not_a_socket_address(addr: &str, error: &str) -> (reason: String)
    ensures
        reason@ == addr@ + ": not a socket address ("@ + error@ + ")"@,
{
    let mut r = String::from_str(addr);
    push_str(&mut r, ": not a socket address (");
    push_str(&mut r, error);
    push_str(&mut r, ")");
    r
}

} // verus!
