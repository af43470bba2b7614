use gungnir_app::review::{
    finding_recorded, finding_refusal, kind_from_view, kind_label, kind_to_view, no_moment, open_review,
    open_the_replay, promotion_target, review_concluded, step_refusal, FindingKind, FindingKindView, ReviewState,
    ReviewStep,
};

#[test]
fn finding_kinds_survive_the_panel_and_back() {
    for v in [
        FindingKindView::SystemBehaviour,
        FindingKindView::Procedure,
        FindingKindView::Practice,
        FindingKindView::Configuration,
    ] {
        assert_eq!(kind_to_view(kind_from_view(v)), v);
    }
    assert_eq!(kind_label(FindingKind::SystemBehaviour), "system-behaviour");
    assert_eq!(kind_label(FindingKind::Configuration), "configuration");
}

#[test]
fn a_review_opens_once_and_only_over_a_session() {
    assert_eq!(open_review(None, Some(7)), Ok(7));
    assert_eq!(open_review(Some(ReviewState::Closed), Some(8)), Ok(8));
    assert_eq!(
        open_review(Some(ReviewState::Concluded), Some(8)),
        Err("a review is already open; conclude and close it first")
    );
    assert_eq!(open_review(None, None), Err("no session is open to review: open one, or replay one"));
}

#[test]
fn findings_are_recorded_only_in_an_open_review() {
    assert_eq!(finding_refusal(Some(ReviewState::Open)), None);
    assert_eq!(finding_refusal(None), Some("no review is open to record a finding in"));
    assert_eq!(
        finding_refusal(Some(ReviewState::Concluded)),
        Some("the review is concluded; findings are recorded before that")
    );
}

#[test]
fn a_finding_is_promoted_only_into_a_register_entry() {
    assert_eq!(promotion_target("  GAP-142 "), Ok("GAP-142".to_string()));
    assert_eq!(
        promotion_target("GAP-"),
        Err("a finding is promoted into a register entry, and \"GAP-\" is not one".to_string())
    );
    assert_eq!(
        promotion_target(" issue 4 "),
        Err("a finding is promoted into a register entry, and \"issue 4\" is not one".to_string())
    );
}

#[test]
fn the_review_says_what_it_did_and_why_it_did_not() {
    assert_eq!(no_moment(3), "finding #3 records no moment to seek to");
    assert_eq!(open_the_replay(12, 3), "open the replay of session 12 to seek to finding #3");
    assert_eq!(
        finding_recorded(2, FindingKind::Procedure, 40),
        "recorded finding #2 (procedure) in the review of session 40"
    );
    assert_eq!(review_concluded(40, 0), "concluded the review of session 40 with 0 findings");
}

#[test]
fn every_step_refused_for_want_of_a_review_is_said() {
    assert_eq!(step_refusal(ReviewStep::SeekTo, None), Some("no review is open to seek in"));
    assert_eq!(step_refusal(ReviewStep::Conclude, None), Some("no review is open to conclude"));
    assert_eq!(step_refusal(ReviewStep::Close, None), Some("no review is open to close"));
    assert_eq!(step_refusal(ReviewStep::Promote, None), Some("no review is open to promote a finding from"));
    assert_eq!(
        step_refusal(ReviewStep::Conclude, Some(ReviewState::Concluded)),
        Some("the review is already concluded")
    );
    assert_eq!(step_refusal(ReviewStep::Conclude, Some(ReviewState::Closed)), Some("the review is already closed"));
    assert_eq!(step_refusal(ReviewStep::Conclude, Some(ReviewState::Open)), None);
    assert_eq!(step_refusal(ReviewStep::Close, Some(ReviewState::Concluded)), None);
}
