//! Cooperative identity from ADS-B: the platform class an aircraft category declares, and
//! how a report names itself as evidence.
//!
//! A cooperative report is a claim. Only category set A's crewed-aircraft codes (1-7)
//! name a class the mission distinguishes, `air.crewed`; code 0 ("no category
//! information") and every other category set stay unmapped rather than guessed.

use vstd::prelude::*;
use crate::text::{decimal, push_char, push_decimal, push_str, trim, trimmed};

verus! {

/// Whether an ADS-B category (set, code) names the crewed-aircraft class.
pub open spec fn is_crewed_category(category_set: char, category_code: u8) -> bool {
    category_set == 'A' && 1 <= category_code <= 7
}

/// The platform class an ADS-B category declares, as an `air.*` class id: `air.crewed`
/// for category set A codes 1 to 7, and nothing for any other category.
pub fn platform_class_of_category(category_set: char, category_code: u8) -> (class: Option<&'static str>)
    ensures
        is_crewed_category(category_set, category_code) <==> class is Some,
        class matches Some(c) ==> c@ == "air.crewed"@,
{
    if category_set == 'A' && 1 <= category_code && category_code <= 7 {
        Some("air.crewed")
    } else {
        None
    }
}

/// The upper-case hexadecimal digit for `d`, below sixteen.
pub open spec fn hex_digit(d: nat) -> char {
    if d < 10 { crate::text::digit_char(d) }
    else if d == 10 { 'A' }
    else if d == 11 { 'B' }
    else if d == 12 { 'C' }
    else if d == 13 { 'D' }
    else if d == 14 { 'E' }
    else { 'F' }
}

/// `n` in upper-case hexadecimal, at least `width` digits, padded with leading zeros.
pub open spec fn hex(n: nat, width: nat) -> Seq<char>
    decreases width, n,
{
    if n < 16 && width <= 1 {
        seq![hex_digit(n)]
    } else {
        hex(n / 16, if width > 0 { (width - 1) as nat } else { 0 }).push(hex_digit(n % 16))
    }
}

fn hex_char(d: u32) -> (c: char)
    requires
        d < 16,
    ensures
        c == hex_digit(d as nat),
{
    match d {
        0 => '0',
        1 => '1',
        2 => '2',
        3 => '3',
        4 => '4',
        5 => '5',
        6 => '6',
        7 => '7',
        8 => '8',
        9 => '9',
        10 => 'A',
        11 => 'B',
        12 => 'C',
        13 => 'D',
        14 => 'E',
        _ => 'F',
    }
}

fn push_hex(s: &mut String, n: u32, width: u32)
    ensures
        final(s)@ == old(s)@ + hex(n as nat, width as nat),
    decreases width, n,
{
    if n < 16 && width <= 1 {
        push_char(s, hex_char(n));
        assert(final(s)@ =~= old(s)@ + hex(n as nat, width as nat));
    } else {
        let w: u32 = if width > 0 { width - 1 } else { 0 };
        push_hex(s, n / 16, w);
        push_char(s, hex_char(n % 16));
        assert(final(s)@ =~= old(s)@ + hex(n as nat, width as nat));
    }
}

/// How an ADS-B report names itself as identity evidence: its address in six
/// hexadecimal digits, and its callsign, trimmed, when it sent one.
pub fn adsb_label(address: u32, callsign: Option<&str>) -> (label: String)
    ensures
        match callsign {
            None => label@ == "ADS-B "@ + hex(address as nat, 6),
            Some(c) => exists|t: Seq<char>| trimmed(c@, t) && label@ == "ADS-B "@ + hex(address as nat, 6) + " ("@ + t + ")"@,
        },
{
    let mut label = String::from_str("ADS-B ");
    push_hex(&mut label, address, 6);
    match callsign {
        None => {},
        Some(c) => {
            let t = trim(c);
            push_str(&mut label, " (");
            push_str(&mut label, t.as_str());
            push_str(&mut label, ")");
            assert(trimmed(c@, t@));
        },
    }
    label
}

/// The platform class a report declares, when its identification carried both a category
/// set and a code.
pub fn declared_class(category_set: Option<char>, category_code: Option<u8>) -> (class: Option<&'static str>)
    ensures
        class is Some <==> (category_set matches Some(s) && category_code matches Some(c) && is_crewed_category(s, c)),
        class matches Some(c) ==> c@ == "air.crewed"@,
{
    match (category_set, category_code) {
        (Some(s), Some(c)) => platform_class_of_category(s, c),
        _ => None,
    }
}

/// The alert when ADS-B feeds are configured and no local frame origin is declared.
pub fn no_frame_alert(feeds: usize) -> (alert: String)
    ensures
        alert@ == decimal(feeds as nat) + " ADS-B feed(s) configured and no local frame origin declared: no receiver is bound, because a position cannot be placed without one"@,
{
    let mut a = String::new();
    push_decimal(&mut a, feeds as u64);
    push_str(&mut a, " ADS-B feed(s) configured and no local frame origin declared: no receiver is bound, because a position cannot be placed without one");
    a
}

/// The alert for an ADS-B feed that could not be opened.
pub fn not_bound(feed: &str, error: &str) -> (alert: String)
    ensures
        alert@ == "ADS-B feed "@ + feed@ + " not bound: "@ + error@,
{
    let mut a = String::from_str("ADS-B feed ");
    push_str(&mut a, feed);
    push_str(&mut a, " not bound: ");
    push_str(&mut a, error);
    a
}

} // verus!
