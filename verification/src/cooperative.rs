//! Cooperative identity from AIS: the platform class a ship type declares.
//!
//! A vessel says who it is on a channel anybody can transmit on, so the class is a claim
//! the assessor may weigh. Codes ITU-R M.1371-6 Table 53 does not assign, and the reserved
//! ones, yield nothing rather than a guess.

use vstd::prelude::*;
use crate::text::{decimal, push_decimal, push_str};
use crate::peers::{begins_with, starts_with};

verus! {

/// The `surface.*` class an AIS ship type names (ITU-R M.1371-6 Table 53), or none.
pub open spec fn ship_type_class(code: u8) -> Option<Seq<char>> {
    if 20 <= code <= 29 { Some("surface.wig"@) }
    else if code == 30 { Some("surface.fishing"@) }
    else if code == 31 || code == 32 { Some("surface.towing"@) }
    else if code == 33 { Some("surface.dredging"@) }
    else if code == 34 { Some("surface.diving"@) }
    else if code == 35 { Some("surface.military"@) }
    else if code == 36 { Some("surface.sailing"@) }
    else if code == 37 { Some("surface.pleasure"@) }
    else if 40 <= code <= 49 { Some("surface.high-speed-craft"@) }
    else if code == 50 { Some("surface.pilot"@) }
    else if code == 51 { Some("surface.search-and-rescue"@) }
    else if code == 52 { Some("surface.tug"@) }
    else if code == 53 { Some("surface.port-tender"@) }
    else if code == 54 { Some("surface.anti-pollution"@) }
    else if code == 55 { Some("surface.law-enforcement"@) }
    else if code == 58 { Some("surface.medical"@) }
    else if 60 <= code <= 69 { Some("surface.passenger"@) }
    else if 70 <= code <= 79 { Some("surface.cargo"@) }
    else if 80 <= code <= 89 { Some("surface.tanker"@) }
    else if 90 <= code <= 99 { Some("surface.other"@) }
    else { None }
}

/// The platform class an AIS ship type declares, as a `surface.*` class id the
/// baseline's lethality table can name; `None` for a code the table does not assign.
pub fn platform_class_of_ship_type(code: u8) -> (class: Option<&'static str>)
    ensures
        class is None <==> ship_type_class(code) is None,
        class matches Some(c) ==> ship_type_class(code) == Some(c@),
{
    match code {
        20..=29 => Some("surface.wig"),
        30 => Some("surface.fishing"),
        31 | 32 => Some("surface.towing"),
        33 => Some("surface.dredging"),
        34 => Some("surface.diving"),
        35 => Some("surface.military"),
        36 => Some("surface.sailing"),
        37 => Some("surface.pleasure"),
        40..=49 => Some("surface.high-speed-craft"),
        50 => Some("surface.pilot"),
        51 => Some("surface.search-and-rescue"),
        52 => Some("surface.tug"),
        53 => Some("surface.port-tender"),
        54 => Some("surface.anti-pollution"),
        55 => Some("surface.law-enforcement"),
        58 => Some("surface.medical"),
        60..=69 => Some("surface.passenger"),
        70..=79 => Some("surface.cargo"),
        80..=89 => Some("surface.tanker"),
        90..=99 => Some("surface.other"),
        _ => None,
    }
}

/// How an AIS report names itself as identity evidence: its MMSI, and its name when it
/// sent one.
pub fn ais_label(mmsi: u32, name: Option<&str>) -> (label: String)
    ensures
        match name {
            None => label@ == "AIS MMSI "@ + decimal(mmsi as nat),
            Some(n) => label@ == "AIS MMSI "@ + decimal(mmsi as nat) + " ("@ + n@ + ")"@,
        },
{
    let mut label = String::from_str("AIS MMSI ");
    push_decimal(&mut label, mmsi as u64);
    match name {
        None => {},
        Some(n) => {
            push_str(&mut label, " (");
            push_str(&mut label, n);
            push_str(&mut label, ")");
        },
    }
    label
}

/// What kind of evidence PN-04 calls a line: cooperative identity when AIS gave it, and
/// identity evidence otherwise.
pub fn evidence_kind(source: &str) -> (kind: &'static str)
    ensures
        kind@ == if begins_with(source@, "AIS"@) { "cooperative identity (AIS)"@ } else { "identity evidence"@ },
{
    if starts_with(source, "AIS") {
        "cooperative identity (AIS)"
    } else {
        "identity evidence"
    }
}

/// The alert when AIS feeds are configured and no local frame origin is declared.
pub fn no_frame_alert(feeds: usize) -> (alert: String)
    ensures
        alert@ == decimal(feeds as nat) + " AIS feed(s) configured and no local frame origin declared: no receiver is bound, because a report cannot be placed without one"@,
{
    let mut a = String::new();
    push_decimal(&mut a, feeds as u64);
    push_str(&mut a, " AIS feed(s) configured and no local frame origin declared: no receiver is bound, because a report cannot be placed without one");
    a
}

/// The alert for an AIS feed that could not be opened.
pub fn not_bound(feed: &str, error: &str) -> (alert: String)
    ensures
        alert@ == "AIS feed "@ + feed@ + " not bound: "@ + error@,
{
    let mut a = String::from_str("AIS feed ");
    push_str(&mut a, feed);
    push_str(&mut a, " not bound: ");
    push_str(&mut a, error);
    a
}

/// How many reports matched a track and how many did not.
#[derive(Debug, Clone, Copy, PartialEq, Eq, Structural)]
pub struct Association {
    pub matched: u64,
    pub unmatched: u64,
}

/// Count one report: associated with a nearby track, or not.
pub fn count_report(tally: &mut Association, matched: bool)
    requires
        old(tally).matched < u64::MAX,
        old(tally).unmatched < u64::MAX,
    ensures
        matched ==> *final(tally) == (Association { matched: (old(tally).matched + 1) as u64, unmatched: old(tally).unmatched }),
        !matched ==> *final(tally) == (Association { matched: old(tally).matched, unmatched: (old(tally).unmatched + 1) as u64 }),
{
    if matched {
        tally.matched = tally.matched + 1;
    } else {
        tally.unmatched = tally.unmatched + 1;
    }
}

} // verus!
