//! SAPIENT nodes (acoustic, passive RF, spotter): what the desktop says when one cannot be
//! bound.
//!
//! A node is bound only under a sensor the baseline lists, since its bearings are placed
//! from where that sensor stands; a deployment with no local frame binds nothing and says
//! why.

use vstd::prelude::*;
use crate::text::{decimal, push_decimal, push_str};

verus! {

/// The alert when SAPIENT feeds are configured and no local frame origin is declared.
pub fn no_frame_alert(feeds: usize) -> (alert: String)
    ensures
        alert@ == decimal(feeds as nat) + " SAPIENT feed(s) configured and no local frame origin declared: no node is bound, because a bearing's origin cannot be placed without one"@,
{
    let mut a = String::new();
    push_decimal(&mut a, feeds as u64);
    push_str(&mut a, " SAPIENT feed(s) configured and no local frame origin declared: no node is bound, because a bearing's origin cannot be placed without one");
    a
}

/// The alert for a SAPIENT feed naming a sensor the baseline does not list.
pub fn unlisted_sensor(feed: &str, sensor: u32) -> (alert: String)
    ensures
        alert@ == "SAPIENT feed "@ + feed@ + " names sensor "@ + decimal(sensor as nat) + ", which is not in the sensor list"@,
{
    let mut a = String::from_str("SAPIENT feed ");
    push_str(&mut a, feed);
    push_str(&mut a, " names sensor ");
    push_decimal(&mut a, sensor as u64);
    push_str(&mut a, ", which is not in the sensor list");
    a
}

/// The alert for a SAPIENT feed that could not be opened.
pub fn not_bound(feed: &str, error: &str) -> (alert: String)
    ensures
        alert@ == "SAPIENT feed "@ + feed@ + " not bound: "@ + error@,
{
    let mut a = String::from_str("SAPIENT feed ");
    push_str(&mut a, feed);
    push_str(&mut a, " not bound: ");
    push_str(&mut a, error);
    a
}

} // verus!
