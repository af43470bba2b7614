use gungnir_app::engagements::{outcome_label, EngagementPhase, Outcome};

#[test]
fn an_open_engagement_has_no_outcome_yet() {
    assert_eq!(outcome_label(EngagementPhase::Committed), None);
    assert_eq!(outcome_label(EngagementPhase::Executing), None);
}

#[test]
fn a_judged_effect_is_split_by_corroboration() {
    assert_eq!(
        outcome_label(EngagementPhase::Effective { corroborated: true }),
        Some(Outcome::EffectiveCorroborated)
    );
    assert_eq!(
        outcome_label(EngagementPhase::Effective { corroborated: false }),
        Some(Outcome::EffectiveTrackInferred)
    );
    assert_eq!(
        outcome_label(EngagementPhase::Ineffective { corroborated: true }),
        Some(Outcome::IneffectiveCorroborated)
    );
    assert_eq!(
        outcome_label(EngagementPhase::Ineffective { corroborated: false }),
        Some(Outcome::IneffectiveTrackInferred)
    );
}

#[test]
fn an_abandoned_or_unjudged_engagement_says_so() {
    assert_eq!(outcome_label(EngagementPhase::Aborted), Some(Outcome::Aborted));
    assert_eq!(outcome_label(EngagementPhase::Indeterminate), Some(Outcome::Indeterminate));
}
