//! The watch's rhythm: what a maintenance window that overran says, where a scheduled
//! product goes, and the handover one watch gives the next.
//!
//! An overrun is the only maintenance change that alerts: a window opening or closing on
//! schedule is the system doing what somebody planned. A product with an endpoint and no
//! delivery path is recorded as owed, never dropped in silence. What one watch told the
//! next is not rewritten after the next watch accepted it.

use vstd::prelude::*;
use crate::text::{decimal, push_decimal, push_str, trim, all_white_space};

verus! {

/// Why a maintenance window was opened, or that nobody recorded why.
pub fn reason_of(window_reason: Option<&str>) -> (reason: String)
    ensures
        reason@ == match window_reason {
            Some(r) => r@,
            None => "reason not recorded"@,
        },
{
    match window_reason {
        Some(r) => String::from_str(r),
        None => String::from_str("reason not recorded"),
    }
}

/// The alert for a sensor that did not come back from planned maintenance.
pub fn overrun_alert(sensor: u32, reason: &str) -> (alert: String)
    ensures
        alert@ == "Sensor "@ + decimal(sensor as nat) + " did not return from planned maintenance ("@ + reason@
            + "); it is off the air and nobody has said why"@,
{
    let mut a = String::from_str("Sensor ");
    push_decimal(&mut a, sensor as u64);
    push_str(&mut a, " did not return from planned maintenance (");
    push_str(&mut a, reason);
    push_str(&mut a, "); it is off the air and nobody has said why");
    a
}

/// Where a product that came due goes: held for a person to read, or owed to an endpoint
/// no delivery path reaches.
#[derive(Debug, Clone, PartialEq, Eq)]
pub enum ProductDisposition {
    Held,
    Undelivered { endpoint: String, reason: String },
}

/// Where a product that came due goes: held when it names no endpoint, and recorded as
/// owed, with the reason, when it names one.
pub fn disposition(deliver_to: Option<&str>) -> (d: ProductDisposition)
    ensures
        match deliver_to {
            None => d == ProductDisposition::Held,
            Some(e) => d matches ProductDisposition::Undelivered { endpoint, reason } && endpoint@ == e@
                && reason@ == "no delivery path exists yet (GAP-040)"@,
        },
{
    match deliver_to {
        None => ProductDisposition::Held,
        Some(e) => ProductDisposition::Undelivered {
            endpoint: String::from_str(e),
            reason: String::from_str("no delivery path exists yet (GAP-040)"),
        },
    }
}

/// Where the handover stands.
#[derive(Debug, Clone, Copy, PartialEq, Eq, Structural)]
pub enum Handover {
    NoneOpen,
    Open,
    Acknowledged,
}

/// The notes the outgoing watch leaves on the open handover: blank notes leave none. No
/// handover, or one already acknowledged, refuses them.
pub fn handover_notes(handover: Handover, notes: String) -> (set: Result<Option<String>, &'static str>)
    ensures
        handover == Handover::NoneOpen ==> (set matches Err(e) && e@ == "no handover is open"@),
        handover == Handover::Acknowledged ==> (set matches Err(e) && e@ == "this handover was already acknowledged"@),
        handover == Handover::Open ==> match set {
            Ok(Some(n)) => n@ == notes@ && !all_white_space(notes@),
            Ok(None) => all_white_space(notes@),
            Err(_) => false,
        },
{
    match handover {
        Handover::NoneOpen => Err("no handover is open"),
        Handover::Acknowledged => Err("this handover was already acknowledged"),
        Handover::Open => {
            let trimmed = trim(notes.as_str());
            if trimmed.as_str().is_empty() {
                Ok(None)
            } else {
                Ok(Some(notes))
            }
        },
    }
}

} // verus!
