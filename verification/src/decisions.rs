//! The approval queue's words and its small decisions: what became of the plan on a
//! tick, why the queue is empty, and how a verdict or a denial reads on a panel.

use vstd::prelude::*;
use crate::text::concat2;

verus! {

/// What became of the plan on this tick, as the decision support reads it.
#[derive(Debug, Clone, Copy, PartialEq, Eq, Structural)]
pub enum PlanMoved {
    /// A fresh plan was proposed, wherever it was queued.
    Proposed,
    /// A fresh plan was proposed and this desktop's own queue refused it as superseded.
    Superseded,
    /// The plan did not change.
    Unchanged,
}

impl PlanMoved {
    /// What the tick saw: whether the plan changed, and whether this desktop's own queue,
    /// where it took the plan, refused it as superseded.
    pub fn of(plan_changed: bool, superseded: bool) -> (moved: Self)
        ensures
            moved == if superseded {
                PlanMoved::Superseded
            } else if plan_changed {
                PlanMoved::Proposed
            } else {
                PlanMoved::Unchanged
            },
    {
        if superseded {
            PlanMoved::Superseded
        } else if plan_changed {
            PlanMoved::Proposed
        } else {
            PlanMoved::Unchanged
        }
    }
}

/// What the decision support does with the plan that moved: alternatives regenerated
/// and the rehearsal dropped for a fresh plan, both cleared for a superseded one, and
/// nothing for an unchanged plan.
#[derive(Debug, Clone, Copy, PartialEq, Eq, Structural)]
pub struct SupportRefresh {
    pub regenerate_alternatives: bool,
    pub clear_alternatives: bool,
    pub drop_rehearsal: bool,
}

/// How the decision support is refreshed for what became of the plan.
pub fn support_refresh(moved: PlanMoved) -> (refresh: SupportRefresh)
    ensures
        refresh.regenerate_alternatives == (moved == PlanMoved::Proposed),
        refresh.clear_alternatives == (moved == PlanMoved::Superseded),
        refresh.drop_rehearsal == (moved != PlanMoved::Unchanged),
{
    match moved {
        PlanMoved::Proposed => SupportRefresh { regenerate_alternatives: true, clear_alternatives: false, drop_rehearsal: true },
        PlanMoved::Superseded => SupportRefresh { regenerate_alternatives: false, clear_alternatives: true, drop_rehearsal: true },
        PlanMoved::Unchanged => SupportRefresh { regenerate_alternatives: false, clear_alternatives: false, drop_rehearsal: false },
    }
}

/// A verdict as the record spells it.
#[derive(Debug, Clone, PartialEq, Eq)]
pub enum VerdictSummary {
    Approved,
    RequiresHumanApproval,
    Denied { reason: String },
}

/// A verdict in the words a panel shows.
pub fn verdict_sentence(verdict: &VerdictSummary) -> (sentence: String)
    ensures
        sentence@ == match verdict {
            VerdictSummary::Approved => "approved outright by every engine"@,
            VerdictSummary::RequiresHumanApproval => "cleared policy; needs a person to decide"@,
            VerdictSummary::Denied { reason } => "DENIED by policy: "@ + reason@,
        },
{
    match verdict {
        VerdictSummary::Approved => String::from_str("approved outright by every engine"),
        VerdictSummary::RequiresHumanApproval => String::from_str("cleared policy; needs a person to decide"),
        VerdictSummary::Denied { reason } => concat2("DENIED by policy: ", reason.as_str()),
    }
}

/// Why policy denied a plan. The effector layer and weapons-control status are carried by
/// their names.
#[derive(Debug, Clone, PartialEq, Eq)]
pub enum DenialReason {
    EmptyPlan,
    NoGoGeofence,
    InsufficientAuthority,
    ResourceNotReady,
    UnknownResource,
    ControlStatus { layer: String, status: String },
    Authority { layer: String },
    FiresDeconfliction,
}

/// A denial reason as PN-06 shows it.
pub open spec fn denial_text(reason: DenialReason) -> Seq<char> {
    match reason {
        DenialReason::EmptyPlan => "the plan tasks nothing"@,
        DenialReason::NoGoGeofence => "an intercept point lies in a no-go area"@,
        DenialReason::InsufficientAuthority => "the asking role holds no authority"@,
        DenialReason::ResourceNotReady => "a tasked resource is not ready"@,
        DenialReason::UnknownResource => "the plan tasks a resource nobody knows"@,
        DenialReason::ControlStatus { layer, status } => layer@ + " is at "@ + status@,
        DenialReason::Authority { layer } => "no authority rule covers "@ + layer@ + " for this role and class"@,
        DenialReason::FiresDeconfliction => "a fires deconfliction check failed"@,
    }
}

/// The denial reason as PN-06 shows it: a sentence for every reason.
pub fn denial_sentence(reason: &DenialReason) -> (sentence: String)
    ensures
        sentence@ == denial_text(*reason),
{
    match reason {
        DenialReason::EmptyPlan => String::from_str("the plan tasks nothing"),
        DenialReason::NoGoGeofence => String::from_str("an intercept point lies in a no-go area"),
        DenialReason::InsufficientAuthority => String::from_str("the asking role holds no authority"),
        DenialReason::ResourceNotReady => String::from_str("a tasked resource is not ready"),
        DenialReason::UnknownResource => String::from_str("the plan tasks a resource nobody knows"),
        DenialReason::ControlStatus { layer, status } => crate::text::concat3(layer.as_str(), " is at ", status.as_str()),
        DenialReason::Authority { layer } => crate::text::concat3(
            "no authority rule covers ",
            layer.as_str(),
            " for this role and class",
        ),
        DenialReason::FiresDeconfliction => String::from_str("a fires deconfliction check failed"),
    }
}

/// A fires deconfliction check.
#[derive(Debug, Clone, Copy, PartialEq, Eq, Structural)]
pub enum DeconflictionKind {
    LocationAccuracy,
    FriendlyPosition,
    NoFireArea,
    AirspaceMeasure,
    InterceptorTrajectory,
}

/// The deconfliction checks in the words PN-05 uses.
pub fn check_name(kind: DeconflictionKind) -> (name: &'static str)
    ensures
        name@ == match kind {
            DeconflictionKind::LocationAccuracy => "location accuracy"@,
            DeconflictionKind::FriendlyPosition => "friendly positions"@,
            DeconflictionKind::NoFireArea => "no-fire areas"@,
            DeconflictionKind::AirspaceMeasure => "airspace measures"@,
            DeconflictionKind::InterceptorTrajectory => "interceptor trajectories"@,
        },
{
    match kind {
        DeconflictionKind::LocationAccuracy => "location accuracy",
        DeconflictionKind::FriendlyPosition => "friendly positions",
        DeconflictionKind::NoFireArea => "no-fire areas",
        DeconflictionKind::AirspaceMeasure => "airspace measures",
        DeconflictionKind::InterceptorTrajectory => "interceptor trajectories",
    }
}

/// Why the approval queue is empty.
#[derive(Debug, Clone, PartialEq, Eq)]
pub enum EmptyBecause {
    /// No plan is being produced, and why.
    NoPlanProduced { because: &'static str },
    /// Plans flow and policy refused every one; the last reason and how many.
    AllDenied { reason: String, count: usize },
    NothingPending,
}

/// Why the queue is empty, derived rather than assumed, in the order of the causes: no
/// tracking, an unhealthy intercept service, no plan from the allocator, and only with
/// plans flowing the denial history.
pub fn queue_empty_reason(
    tracking_healthy: bool,
    intercept_healthy: bool,
    plan_empty: bool,
    last_denial: &Option<String>,
    denials: usize,
) -> (why: EmptyBecause)
    ensures
        !tracking_healthy ==> (why matches EmptyBecause::NoPlanProduced { because }
            && because@ == "the tracking pipeline is not running, so there are no tracks to plan against"@),
        tracking_healthy && !intercept_healthy ==> (why matches EmptyBecause::NoPlanProduced { because }
            && because@ == "the intercept service reports unhealthy; the plan on screen may be stale"@),
        tracking_healthy && intercept_healthy && plan_empty ==> (why matches EmptyBecause::NoPlanProduced { because }
            && because@ == "the allocator has produced no assignment from the current tracks and ready resources"@),
        tracking_healthy && intercept_healthy && !plan_empty ==> match last_denial {
            Some(reason) if denials > 0 => why matches EmptyBecause::AllDenied { reason: r, count }
                && r@ == reason@ && count == denials,
            _ => why is NothingPending,
        },
{
    if !tracking_healthy {
        return EmptyBecause::NoPlanProduced {
            because: "the tracking pipeline is not running, so there are no tracks to plan against",
        };
    }
    if !intercept_healthy {
        return EmptyBecause::NoPlanProduced {
            because: "the intercept service reports unhealthy; the plan on screen may be stale",
        };
    }
    if plan_empty {
        return EmptyBecause::NoPlanProduced {
            because: "the allocator has produced no assignment from the current tracks and ready resources",
        };
    }
    match last_denial {
        Some(reason) if denials > 0 => EmptyBecause::AllDenied { reason: reason.clone(), count: denials },
        _ => EmptyBecause::NothingPending,
    }
}

/// The permission a decision needs.
#[derive(Debug, Clone, Copy, PartialEq, Eq, Structural)]
pub enum DecisionAction {
    /// `plan.decide`: accepting or rejecting.
    DecidePlan,
    /// `plan.override`: overriding policy.
    OverridePlan,
}

/// The permission a decision needs: `plan.override` for an override, `plan.decide`
/// otherwise.
pub fn decision_action(overridden: bool) -> (action: DecisionAction)
    ensures
        action == if overridden { DecisionAction::OverridePlan } else { DecisionAction::DecidePlan },
{
    if overridden { DecisionAction::OverridePlan } else { DecisionAction::DecidePlan }
}

/// Why a role may not take a decision on this desktop's own queue.
#[derive(Debug, Clone, Copy, PartialEq, Eq, Structural)]
pub enum DecisionRefusal {
    /// The role does not hold the permission the decision needs.
    NotPermitted { action: DecisionAction },
    /// The item is not offered, nor escalated, to the role.
    NotOffered,
}

/// Whether a role may take a decision: `permitted` is whether the role holds the
/// permission the decision needs, and `offered` whether the queue still holds the item
/// and then whether it is offered to the role. An item the queue no longer holds goes on
/// to the desk, which says it was decided or expired.
pub fn authorize_decision(overridden: bool, permitted: bool, offered: Option<bool>) -> (verdict: Result<(), DecisionRefusal>)
    ensures
        !permitted ==> verdict == Err::<(), DecisionRefusal>(DecisionRefusal::NotPermitted { action: if overridden { DecisionAction::OverridePlan } else { DecisionAction::DecidePlan } }),
        permitted && offered == Some(false) ==> verdict == Err::<(), DecisionRefusal>(DecisionRefusal::NotOffered),
        permitted && offered != Some(false) ==> verdict is Ok,
{
    let action = decision_action(overridden);
    if !permitted {
        return Err(DecisionRefusal::NotPermitted { action });
    }
    if let Some(false) = offered {
        return Err(DecisionRefusal::NotOffered);
    }
    Ok(())
}

} // verus!
