//! How an engagement's standing is spelled on the bus: nothing while it is still open,
//! and one of six outcomes once it has closed, told apart by whether the evidence of
//! its effect was corroborated or only inferred from the track.

use vstd::prelude::*;

verus! {

/// Where an engagement stands, as far as its outcome is concerned: the two open phases,
/// and the four ways it can close. A judged effect carries whether its evidence was
/// corroborated by something other than the track itself.
#[derive(Debug, Clone, Copy, PartialEq, Eq, Structural)]
pub enum EngagementPhase {
    Committed,
    Executing,
    Effective { corroborated: bool },
    Ineffective { corroborated: bool },
    Aborted,
    Indeterminate,
}

/// The outcome an engagement closed with, as the bus spells it.
#[derive(Debug, Clone, Copy, PartialEq, Eq, Structural)]
pub enum Outcome {
    EffectiveCorroborated,
    EffectiveTrackInferred,
    IneffectiveCorroborated,
    IneffectiveTrackInferred,
    Aborted,
    Indeterminate,
}

/// Whether the engagement is still open, so that no outcome can be said of it yet.
pub open spec fn is_open(phase: EngagementPhase) -> bool {
    phase is Committed || phase is Executing
}

/// The outcome an engagement in `phase` is reported with: none while it is open, and
/// otherwise the one that names its closing, split by whether a judged effect was
/// corroborated.
pub open spec fn outcome_of(phase: EngagementPhase) -> Option<Outcome> {
    match phase {
        EngagementPhase::Committed | EngagementPhase::Executing => None,
        EngagementPhase::Effective { corroborated } => Some(
            if corroborated { Outcome::EffectiveCorroborated } else { Outcome::EffectiveTrackInferred },
        ),
        EngagementPhase::Ineffective { corroborated } => Some(
            if corroborated { Outcome::IneffectiveCorroborated } else { Outcome::IneffectiveTrackInferred },
        ),
        EngagementPhase::Aborted => Some(Outcome::Aborted),
        EngagementPhase::Indeterminate => Some(Outcome::Indeterminate),
    }
}

/// The outcome of an engagement, as the bus spells it.
pub fn outcome_label(phase: EngagementPhase) -> (outcome: Option<Outcome>)
    ensures
        outcome == outcome_of(phase),
        outcome is None <==> is_open(phase),
{
    match phase {
        EngagementPhase::Committed | EngagementPhase::Executing => None,
        EngagementPhase::Effective { corroborated } => Some(
            if corroborated {
                Outcome::EffectiveCorroborated
            } else {
                Outcome::EffectiveTrackInferred
            },
        ),
        EngagementPhase::Ineffective { corroborated } => Some(
            if corroborated {
                Outcome::IneffectiveCorroborated
            } else {
                Outcome::IneffectiveTrackInferred
            },
        ),
        EngagementPhase::Aborted => Some(Outcome::Aborted),
        EngagementPhase::Indeterminate => Some(Outcome::Indeterminate),
    }
}

/// Two engagements that closed differently are never reported with the same outcome:
/// the outcome tells the closing and, for a judged effect, the corroboration apart.
pub proof fn outcomes_tell_closings_apart(a: EngagementPhase, b: EngagementPhase)
    requires
        !is_open(a),
        !is_open(b),
        a != b,
    ensures
        outcome_of(a) != outcome_of(b),
{
}

} // verus!
