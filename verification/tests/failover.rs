use gungnir_app::failover::{
    can_switch_back, conflict_resolved_audit, fall_back, forward_if_settled, ground_reason, lapse_if_due, outbox_view,
    resolve_conflict, restore, settlement_for, supply_history, switch_back, take_forward_reply,
    tick_action, unranked_reason, ArbitrationGround, ConflictSide, DecisionConflict, Fallback,
    ForwardReply, Forwarding, HistoryOutcome, OutboxView, PlanId, Reconciliation, Settlement,
    SideOutcome, TickAction, Verdict,
};
use gungnir_app::session::Role;

fn side(outcome: SideOutcome, operator: Option<&str>, role: Option<&str>) -> ConflictSide {
    ConflictSide {
        outcome,
        operator: operator.map(str::to_string),
        role: role.map(str::to_string),
    }
}

fn conflict(plan: u64, local_role: Option<&str>, remote_role: Option<&str>) -> DecisionConflict {
    DecisionConflict {
        plan: PlanId(plan),
        local: side(SideOutcome::Accepted, Some("7"), local_role),
        remote: side(SideOutcome::Rejected, Some("9"), remote_role),
    }
}

fn restored_outage() -> Option<Fallback> {
    let mut f = fall_back("https://node:8443", 41);
    let (from_seq, alert) = restore(&mut f);
    assert_eq!(from_seq, 42);
    assert!(alert.contains("answers again"), "{alert}");
    Some(f)
}

fn history(judged: Vec<(DecisionConflict, Option<Verdict>)>) -> HistoryOutcome {
    HistoryOutcome::Complete {
        local: Ok(5),
        remote: 7,
        merged: 11,
        duplicates_dropped: 1,
        judged,
        both_acted: vec![],
    }
}

#[test]
fn the_switch_waits_for_the_node_the_merge_and_a_person() {
    let mut none: Option<Fallback> = None;
    assert_eq!(switch_back(&mut none, Some(true)), Err("no outage to switch back from".to_string()));

    let mut f = Some(fall_back("n1", 0));
    assert_eq!(switch_back(&mut f, Some(true)), Err("node n1 has not answered yet".to_string()));

    let mut f = restored_outage();
    assert_eq!(
        switch_back(&mut f, Some(true)),
        Err("the reconciliation is still being computed".to_string())
    );

    let supplied = supply_history(&mut f, history(vec![(conflict(3, None, Some("Supervisor")), None)]))
        .expect("a restored outage takes its history");
    assert!(supplied.forward_now);
    assert_eq!(
        supplied.alert,
        "reconciliation computed: 5 local and 7 node envelopes, 11 merged, 1 duplicate(s) dropped; \
         0 conflicting decision(s) resolved by the arbitration rule, 1 left to a person; PN-18 holds it"
    );
    let refused = switch_back(&mut f, Some(true)).unwrap_err();
    assert!(refused.starts_with("1 conflict(s) the arbitration rule could not rank"), "{refused}");
    assert!(!can_switch_back(f.as_ref().unwrap(), Some(true)));
    assert_eq!(forward_if_settled(&mut f, 2, 1, true), None);
    assert_eq!(f.as_ref().unwrap().forwarding, Forwarding::Waiting);

    assert_eq!(
        resolve_conflict(&mut f, false, Role::Operator, PlanId(3), true, None),
        Err("Operator may not decide plans, and resolving a conflict is a decision".to_string())
    );
    assert_eq!(
        resolve_conflict(&mut f, true, Role::Supervisor, PlanId(4), true, None),
        Err("plan 4 is not a conflict of this outage".to_string())
    );
    assert_eq!(
        resolve_conflict(&mut f, true, Role::Supervisor, PlanId(3), true, Some("12".into())),
        Ok(())
    );
    let r = f.as_ref().unwrap().reconciliation.clone().unwrap().unwrap();
    assert!(r.conflicts.is_empty());
    assert_eq!(r.resolved, vec![(PlanId(3), true)]);
    assert_eq!(r.resolved_by, std::collections::BTreeMap::from([(3u64, Some("12".to_string()))]));
    assert_eq!(
        settlement_for(&r, PlanId(3)),
        Some(Settlement::Person { kept_local: true, operator: Some("12".to_string()) })
    );

    let alert = forward_if_settled(&mut f, 2, 1, true);
    assert_eq!(
        alert,
        Some("forwarding this desktop's outage to the node: 2 decision(s), 1 with the settlement of a conflict".to_string())
    );
    assert_eq!(f.as_ref().unwrap().forwarding, Forwarding::Sent { decisions: 2 });
    assert_eq!(forward_if_settled(&mut f, 9, 9, true), None, "once per outage");

    assert_eq!(
        switch_back(&mut f, Some(false)),
        Err("node https://node:8443 is silent again; the switch waits for it".to_string())
    );
    assert_eq!(switch_back(&mut f, None), Err("the link is gone; sign in again".to_string()));
    assert!(can_switch_back(f.as_ref().unwrap(), Some(true)));
    let done = switch_back(&mut f, Some(true)).expect("switches");
    assert!(f.is_none());
    assert_eq!(done.merged, 11);
    assert_eq!(done.conflicts, 1);
    assert!(done.node_history);
    assert_eq!(
        done.alert,
        "switched back to node https://node:8443; 11 envelope(s) merged, 1 conflict(s) on the record"
    );
}

#[test]
fn the_rule_settles_what_it_can_rank_and_leaves_the_rest() {
    let mut f = restored_outage();
    let ranked = Verdict { keep_first: false, ground: ArbitrationGround::HigherRole };
    supply_history(
        &mut f,
        history(vec![
            (conflict(1, Some("Operator"), Some("Commander")), Some(ranked)),
            (conflict(2, Some("Wizard"), Some("Operator")), None),
        ]),
    );
    let r = f.as_ref().unwrap().reconciliation.clone().unwrap().unwrap();
    assert_eq!(r.arbitrated.len(), 1);
    assert!(!r.arbitrated[0].kept_local);
    assert_eq!(r.conflicts.len(), 1);
    assert_eq!(r.conflicts[0].plan, PlanId(2));
    assert_eq!(
        resolve_conflict(&mut f, true, Role::Supervisor, PlanId(1), true, None),
        Err("plan 1 was resolved by the arbitration rule (the higher role wins (D-03)); it is not left to a person".to_string())
    );
    match settlement_for(&r, PlanId(1)) {
        Some(Settlement::Rule { kept_local, ground, .. }) => {
            assert!(!kept_local);
            assert_eq!(ground, ArbitrationGround::HigherRole);
        }
        other => panic!("{other:?}"),
    }
    assert_eq!(settlement_for(&r, PlanId(2)), None);
}

#[test]
fn an_unavailable_history_is_said_and_the_outage_still_goes() {
    let mut f = restored_outage();
    let s = supply_history(&mut f, HistoryOutcome::Gone { reason: "older than the window".into() }).unwrap();
    assert!(s.forward_now);
    assert_eq!(
        s.alert,
        "reconciliation not computed: the node no longer holds its journal for the outage \
         (older than the window); the merge cannot be computed and the two records stay separate"
    );
    assert_eq!(forward_if_settled(&mut f, 0, 0, true), None);
    assert_eq!(f.as_ref().unwrap().forwarding, Forwarding::NothingDecided);

    let mut g = restored_outage();
    let s = supply_history(
        &mut g,
        HistoryOutcome::Complete {
            local: Err("disk".into()),
            remote: 0,
            merged: 0,
            duplicates_dropped: 0,
            judged: vec![],
            both_acted: vec![],
        },
    )
    .unwrap();
    assert!(!s.forward_now);
    assert_eq!(s.alert, "reconciliation not computed: this desktop's journal could not be read: disk");

    let mut unrestored = Some(fall_back("n", 1));
    assert!(supply_history(&mut unrestored, HistoryOutcome::Unreachable { reason: "x".into() }).is_none());
    assert_eq!(unrestored, Some(fall_back("n", 1)));
}

#[test]
fn a_refused_batch_holds_the_switch_and_is_said() {
    let mut f = restored_outage();
    supply_history(&mut f, history(vec![]));
    forward_if_settled(&mut f, 3, 0, true);
    let alert = take_forward_reply(
        &mut f,
        ForwardReply::Rejected { status: 409, reason: "a decision disagrees".into() },
    );
    assert_eq!(
        alert,
        "the node would not take this desktop's outage (409: a decision disagrees); nothing of it is on the node's record"
    );
    assert_eq!(
        f.as_ref().unwrap().forwarding,
        Forwarding::Refused("409: a decision disagrees".into())
    );
    assert!(!can_switch_back(f.as_ref().unwrap(), Some(true)));
    let refused = switch_back(&mut f, Some(true)).unwrap_err();
    assert!(refused.contains("holds none of it (409: a decision disagrees)"), "{refused}");

    let alert = take_forward_reply(
        &mut f,
        ForwardReply::Accepted { recorded: 3, already_held: 0, settled: 0 },
    );
    assert_eq!(
        alert,
        "the node holds this desktop's outage: 3 decision(s) recorded, 0 it already held, 0 settlement(s) put on its record"
    );
    assert!(can_switch_back(f.as_ref().unwrap(), Some(true)));
}

#[test]
fn no_link_means_the_outage_cannot_be_forwarded() {
    let mut f = restored_outage();
    supply_history(&mut f, history(vec![]));
    assert_eq!(forward_if_settled(&mut f, 1, 0, false), None);
    assert_eq!(
        f.unwrap().forwarding,
        Forwarding::Refused(
            "the link to the node is gone, so the outage could not be forwarded; sign in again".into()
        )
    );
}

#[test]
fn the_lapse_is_applied_once_and_only_where_something_was_delegated() {
    let mut f = Some(fall_back("n", 0));
    assert!(!lapse_if_due(&mut f, false, true));
    assert!(lapse_if_due(&mut f, true, true));
    assert!(!lapse_if_due(&mut f, true, true), "once per outage");
    let mut g = Some(fall_back("n", 0));
    assert!(!lapse_if_due(&mut g, true, false));
    assert!(g.unwrap().lapsed);
    let mut none: Option<Fallback> = None;
    assert!(!lapse_if_due(&mut none, true, true));
}

#[test]
fn the_tick_falls_back_and_restores_on_the_link_alone() {
    let f = Some(fall_back("n", 0));
    assert_eq!(tick_action(true, &None, true, true, false), TickAction::FallBack);
    assert_eq!(tick_action(true, &None, true, false, true), TickAction::Nothing);
    assert_eq!(tick_action(false, &f, true, false, true), TickAction::Restore);
    assert_eq!(tick_action(false, &f, true, false, false), TickAction::Nothing);
    assert_eq!(tick_action(false, &f, false, true, true), TickAction::Nothing);
    assert_eq!(tick_action(false, &restored_outage(), true, false, true), TickAction::Nothing);
}

#[test]
fn a_saturated_sequence_asks_from_the_end() {
    let mut f = fall_back("n", u64::MAX);
    assert_eq!(restore(&mut f).0, u64::MAX);
}

#[test]
fn unranked_conflicts_say_which_side_is_missing_what() {
    assert_eq!(
        unranked_reason(&conflict(1, None, Some("Wizard"))),
        "this desktop's decision has no recorded role, and the node's decision records \"Wizard\", which is not a role this build knows"
    );
    assert_eq!(
        unranked_reason(&conflict(1, Some("Operator"), Some("Supervisor"))),
        "the rule could not order the two decisions in time"
    );
    let expiry = DecisionConflict {
        plan: PlanId(1),
        local: side(SideOutcome::Expired, None, None),
        remote: side(SideOutcome::Accepted, None, None),
    };
    assert_eq!(unranked_reason(&expiry), "the node's decision has no recorded role");
    assert_eq!(ground_reason(ArbitrationGround::HigherRole), "the higher role wins (D-03)");
}

#[test]
fn the_outbox_is_read_from_the_link() {
    assert_eq!(outbox_view(None), None);
    assert_eq!(
        outbox_view(Some((2, 10, 1))),
        Some(OutboxView { queued: 2, forwarded: 10, dropped: 1 })
    );
    let _ = Reconciliation {
        local: 0,
        remote: 0,
        merged: 0,
        duplicates_dropped: 0,
        conflicts: vec![],
        arbitrated: vec![],
        resolved: vec![],
        resolved_by: std::collections::BTreeMap::new(),
        both_acted: vec![],
    };
}

#[test]
fn a_resolved_conflict_is_audited_with_the_side_kept() {
    assert_eq!(conflict_resolved_audit("17", true), "reconciliation: plan 17 kept this desktop's decision");
    assert_eq!(conflict_resolved_audit("17", false), "reconciliation: plan 17 kept the node's decision");
}
