//! Which algorithm configuration this deployment is running, said in one line.
//!
//! A deployment that declared nothing and one whose declaration was refused are
//! different situations, and the line says which.

use vstd::prelude::*;
use crate::text::push_str;

verus! {

/// The one-line answer to "what is this console running": why nothing is governed, when
/// the registry could not be built; else the baseline in force, by its identifier; else
/// that nothing is declared.
pub fn in_force_label(unavailable: Option<&str>, in_force: Option<&str>) -> (label: String)
    ensures
        label@ == match unavailable {
            Some(reason) => "no algorithm configuration is in force: "@ + reason@,
            None => match in_force {
                Some(id) => id@,
                None => "no algorithm configuration is declared"@,
            },
        },
{
    match unavailable {
        Some(reason) => {
            let mut l = String::from_str("no algorithm configuration is in force: ");
            push_str(&mut l, reason);
            l
        },
        None => match in_force {
            Some(id) => String::from_str(id),
            None => String::from_str("no algorithm configuration is declared"),
        },
    }
}

} // verus!
