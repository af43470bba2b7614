use gungnir_app::decisions::{
    authorize_decision, check_name, decision_action, denial_sentence, queue_empty_reason, support_refresh,
    verdict_sentence, DecisionAction, DecisionRefusal, DeconflictionKind, DenialReason, EmptyBecause, PlanMoved,
    SupportRefresh, VerdictSummary,
};

#[test]
fn every_denial_reason_reads_as_a_sentence() {
    for reason in [
        DenialReason::EmptyPlan,
        DenialReason::NoGoGeofence,
        DenialReason::InsufficientAuthority,
        DenialReason::ResourceNotReady,
        DenialReason::UnknownResource,
        DenialReason::ControlStatus { layer: "Point".into(), status: "Hold".into() },
        DenialReason::Authority { layer: "Area".into() },
        DenialReason::FiresDeconfliction,
    ] {
        let s = denial_sentence(&reason);
        assert!(!s.is_empty());
        assert!(!s.contains('{') && !s.starts_with("Denial"), "{reason:?} reached the screen as a debug format: {s}");
    }
}

#[test]
fn denials_and_verdicts_in_words() {
    assert_eq!(
        denial_sentence(&DenialReason::ControlStatus { layer: "Point".into(), status: "Hold".into() }),
        "Point is at Hold"
    );
    assert_eq!(
        denial_sentence(&DenialReason::Authority { layer: "Area".into() }),
        "no authority rule covers Area for this role and class"
    );
    assert_eq!(
        verdict_sentence(&VerdictSummary::Denied { reason: "a tasked resource is not ready".into() }),
        "DENIED by policy: a tasked resource is not ready"
    );
    assert_eq!(verdict_sentence(&VerdictSummary::Approved), "approved outright by every engine");
    assert_eq!(check_name(DeconflictionKind::NoFireArea), "no-fire areas");
}

#[test]
fn the_support_follows_what_became_of_the_plan() {
    assert_eq!(PlanMoved::of(true, true), PlanMoved::Superseded);
    assert_eq!(PlanMoved::of(true, false), PlanMoved::Proposed);
    assert_eq!(PlanMoved::of(false, false), PlanMoved::Unchanged);
    assert_eq!(
        support_refresh(PlanMoved::Proposed),
        SupportRefresh { regenerate_alternatives: true, clear_alternatives: false, drop_rehearsal: true }
    );
    assert_eq!(
        support_refresh(PlanMoved::Unchanged),
        SupportRefresh { regenerate_alternatives: false, clear_alternatives: false, drop_rehearsal: false }
    );
}

#[test]
fn an_empty_queue_says_why() {
    assert_eq!(
        queue_empty_reason(false, true, false, &None, 0),
        EmptyBecause::NoPlanProduced {
            because: "the tracking pipeline is not running, so there are no tracks to plan against"
        }
    );
    assert_eq!(
        queue_empty_reason(true, true, false, &Some("no-go".into()), 2),
        EmptyBecause::AllDenied { reason: "no-go".into(), count: 2 }
    );
    assert_eq!(queue_empty_reason(true, true, false, &Some("no-go".into()), 0), EmptyBecause::NothingPending);
}

#[test]
fn a_decision_is_authorized_before_anything_is_recorded() {
    assert_eq!(decision_action(true), DecisionAction::OverridePlan);
    assert_eq!(
        authorize_decision(true, false, Some(true)),
        Err(DecisionRefusal::NotPermitted { action: DecisionAction::OverridePlan })
    );
    assert_eq!(authorize_decision(false, true, Some(false)), Err(DecisionRefusal::NotOffered));
    assert_eq!(authorize_decision(false, true, None), Ok(()));
}
