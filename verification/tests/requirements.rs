use gungnir_app::journal::SessionRead;
use gungnir_app::requirements::{
    apply_recovered, attribution, audit_detail, lapsed_alert, priority_rank, recover, standing, store, who,
    AssetPriority, CollectionRequirement, Concurrence, Recovered, RequirementAct, RequirementEvent, RequirementState,
    Standing,
};
use gungnir_app::session::Role;

fn stated(id: u64, title: &str) -> RequirementEvent {
    RequirementEvent::Stated {
        requirement: CollectionRequirement {
            id,
            title: title.into(),
            priority: AssetPriority::High,
            state: RequirementState::Stated,
        },
    }
}

fn supervisor() -> Concurrence {
    Concurrence::Operator { id: "op-7".into(), role: "Supervisor".into() }
}

#[test]
fn a_requirement_stated_on_monday_is_answered_on_tuesday() {
    let journal = vec![
        SessionRead { session: 20, events: Ok(vec![Some(RequirementEvent::Tasked { requirement: 1, by: supervisor() })]) },
        SessionRead { session: 10, events: Ok(vec![Some(stated(1, "harbour mouth")), None]) },
    ];
    let (reqs, outcome) = recover(Ok(journal));
    assert_eq!(reqs.len(), 1);
    assert_eq!(reqs[0].title, "harbour mouth");
    assert_eq!(reqs[0].state, RequirementState::Tasked { by: supervisor() });
    assert_eq!(outcome, Recovered::FromJournal { sessions: 2 });
}

#[test]
fn a_state_change_for_a_requirement_nothing_stated_is_ignored() {
    let mut reqs = Vec::new();
    apply_recovered(&mut reqs, &RequirementEvent::Lapsed { requirement: 4 });
    assert!(reqs.is_empty());
    apply_recovered(&mut reqs, &stated(4, "pier"));
    apply_recovered(&mut reqs, &RequirementEvent::Satisfied { requirement: 4, evidence: "imagery 12".into() });
    assert_eq!(reqs[0].state, RequirementState::Satisfied { evidence: "imagery 12".into() });
}

#[test]
fn a_restatement_replaces_and_never_duplicates() {
    let mut reqs = Vec::new();
    apply_recovered(&mut reqs, &stated(1, "first"));
    apply_recovered(&mut reqs, &stated(2, "second"));
    apply_recovered(&mut reqs, &stated(1, "first, amended"));
    assert_eq!(reqs.len(), 2);
    assert_eq!(reqs[0].title, "first, amended");
    assert_eq!(reqs[1].title, "second");
}

#[test]
fn an_unreadable_journal_is_never_an_empty_list() {
    let (reqs, outcome) = recover(Err("permission denied".into()));
    assert!(reqs.is_empty());
    assert_eq!(outcome, Recovered::Unreadable { reason: "permission denied".into() });

    let journal = vec![
        SessionRead { session: 1, events: Ok(vec![Some(stated(3, "kept"))]) },
        SessionRead { session: 2, events: Err("truncated".into()) },
    ];
    let (reqs, outcome) = recover(Ok(journal));
    assert_eq!(reqs.len(), 1);
    assert_eq!(outcome, Recovered::Unreadable { reason: "session 2: truncated".into() });

    let (reqs, outcome) = recover(Ok(vec![SessionRead { session: 1, events: Ok(vec![None]) }]));
    assert!(reqs.is_empty());
    assert_eq!(outcome, Recovered::NothingStated);
}

#[test]
fn priorities_rank_and_nobody_is_invented() {
    assert!(priority_rank(AssetPriority::Critical) > priority_rank(AssetPriority::High));
    assert!(priority_rank(AssetPriority::Medium) > priority_rank(AssetPriority::Low));
    assert_eq!(who(&supervisor()), "op-7");
    assert_eq!(
        who(&Concurrence::UnattributedRole { role: "Supervisor".into() }),
        "the role on watch; nobody was signed in"
    );
}

#[test]
fn an_act_is_attributed_and_never_to_an_invented_person() {
    assert_eq!(
        attribution(Some(7), Role::Supervisor),
        Concurrence::Operator { id: "7".into(), role: "Supervisor".into() }
    );
    let nobody = attribution(None, Role::SensorManager);
    assert_eq!(nobody, Concurrence::UnattributedRole { role: "SensorManager".into() });
    assert_eq!(
        standing(&RequirementState::Tasked { by: nobody }),
        Standing::Tasked { by: "the role on watch; nobody was signed in".into() }
    );
    assert_eq!(
        standing(&RequirementState::Declined { by: supervisor(), reason: "no sensor".into() }),
        Standing::Declined { by: "op-7".into(), reason: "no sensor".into() }
    );
}

#[test]
fn a_changed_requirement_replaces_its_own_entry_only() {
    let mut reqs = Vec::new();
    apply_recovered(&mut reqs, &stated(1, "a"));
    apply_recovered(&mut reqs, &stated(2, "b"));
    let mut changed = reqs[1].clone();
    changed.state = RequirementState::Lapsed;
    store(&mut reqs, changed);
    assert_eq!(reqs[1].state, RequirementState::Lapsed);
    assert_eq!(reqs[0].state, RequirementState::Stated);
    let mut stranger = reqs[0].clone();
    stranger.id = 99;
    store(&mut reqs, stranger);
    assert_eq!(reqs.len(), 2);
}

#[test]
fn requirement_acts_are_said_and_recorded() {
    assert_eq!(
        lapsed_alert(4),
        "Collection requirement 4 lapsed: its needed-by time passed with nobody deciding either way."
    );
    assert_eq!(audit_detail(RequirementAct::Tasked, 4), "tasked a sensor for requirement 4");
    assert_eq!(audit_detail(RequirementAct::Stated, 5), "stated requirement 5");
}
