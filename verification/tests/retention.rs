use gungnir_app::retention::{protected, PurgeOutcome, RequirementSessions, RetentionState};

fn state() -> RetentionState {
    RetentionState::from_recovery(
        vec![
            RequirementSessions { requirement: 1, sessions: vec![10, 11] },
            RequirementSessions { requirement: 2, sessions: vec![12] },
            RequirementSessions { requirement: 5, sessions: vec![13, 14] },
        ],
        Some(15),
    )
}

#[test]
fn what_is_still_in_force_is_kept_whatever_its_age() {
    let mut kept = protected(Some(30), &[2], &state(), Some(16));
    kept.sort();
    // Live 30; open requirement 2's session 12; the highest requirement's 13 and 14;
    // the launch-warning session 15; the outage's 16. Closed requirement 1 goes.
    assert_eq!(kept, vec![12, 13, 14, 15, 16, 30]);
}

#[test]
fn nothing_is_kept_twice() {
    let kept = protected(Some(13), &[5, 5], &state(), Some(13));
    let mut sorted = kept.clone();
    sorted.sort();
    sorted.dedup();
    assert_eq!(sorted.len(), kept.len());
}

#[test]
fn the_purge_runs_on_the_first_tick_and_hourly_after() {
    let mut s = state();
    assert!(s.due(100));
    assert!(!s.due(101));
    assert!(!s.due(3699));
    assert!(s.due(3700));
}

#[test]
fn a_failure_is_raised_once_and_a_removal_is_named() {
    let mut s = state();
    let first = s.after_purge(Err("disk full".into()), 30);
    assert_eq!(
        first,
        Some("Journal retention failed (disk full); nothing is half-removed, and it is tried again in an hour".into())
    );
    assert_eq!(s.after_purge(Err("disk full".into()), 30), None);
    let removed = s.after_purge(Ok(PurgeOutcome { purged: vec![3, 4], completed: vec![2] }), 30);
    assert_eq!(removed, Some("Retention removed 3 session(s) not written for more than 30 days: 3, 4, 2".into()));
    assert_eq!(s.purged_total, 3);
    assert_eq!(s.after_purge(Ok(PurgeOutcome { purged: vec![], completed: vec![] }), 30), None);
    assert!(s.after_purge(Err("disk full".into()), 30).is_some(), "a success clears the failure");
}
