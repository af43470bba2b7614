use gungnir_app::projection::{
    answer_line, authority, decided_rows, decision_poster, in_force, node_holds_the_queue, node_queue_stats,
    request_key, who, AnswerLine, Backend, DecisionAnswer, DecisionOutcome, EndedAs, EndedItem, NodeQueueStats,
    OutboundDecision, PendingApprovalId, QueueAuthority, QueueInForce, QueueItem,
};

fn remote() -> Backend {
    Backend::Remote { endpoint: "https://node:8443".into() }
}

#[test]
fn the_node_holds_the_queue_while_the_backend_is_the_node() {
    assert_eq!(in_force(&remote()), QueueInForce::Node { endpoint: "https://node:8443".into() });
    assert_eq!(in_force(&Backend::Embedded), QueueInForce::ThisDesktop);
    assert!(node_holds_the_queue(&remote()));
    assert!(!node_holds_the_queue(&Backend::Embedded));
    assert_eq!(authority(&remote()), QueueAuthority::Node { endpoint: "https://node:8443".into() });
    assert_eq!(authority(&Backend::Embedded), QueueAuthority::ThisDesktop);
}

#[test]
fn the_answer_line_says_what_the_node_answered_or_that_it_waits() {
    let refused = Some(DecisionOutcome {
        item: PendingApprovalId(4),
        answer: DecisionAnswer::Refused { sentence: "Already decided.".into() },
    });
    assert_eq!(
        answer_line(&refused, &[], PendingApprovalId(4)),
        Some(AnswerLine::Refused { sentence: "Already decided.".into() })
    );
    let in_flight = [OutboundDecision { item: PendingApprovalId(5), attempts: 3 }];
    assert_eq!(answer_line(&refused, &in_flight, PendingApprovalId(5)), Some(AnswerLine::Waiting { attempts: 3 }));
    assert_eq!(answer_line(&refused, &in_flight, PendingApprovalId(6)), None);
    let recorded = Some(DecisionOutcome { item: PendingApprovalId(4), answer: DecisionAnswer::Recorded });
    assert_eq!(answer_line(&recorded, &[], PendingApprovalId(4)), None);
}

#[test]
fn the_node_queue_is_counted_off_what_was_seen() {
    let items = vec![
        QueueItem { item: PendingApprovalId(1), offered_to: vec!["Operator".into()], pre_delegated: false },
        QueueItem {
            item: PendingApprovalId(2),
            offered_to: vec!["Operator".into(), "Supervisor".into()],
            pre_delegated: false,
        },
    ];
    let ended = vec![
        EndedItem {
            item: Some(PendingApprovalId(7)),
            ended: EndedAs::Decided { accepted: true, operator: Some("9".into()), role: Some("Supervisor".into()) },
        },
        EndedItem { item: None, ended: EndedAs::Expired },
        EndedItem { item: None, ended: EndedAs::Decided { accepted: false, operator: None, role: None } },
        EndedItem {
            item: None,
            ended: EndedAs::Decided { accepted: true, operator: None, role: Some("Supervisor".into()) },
        },
    ];
    assert_eq!(
        node_queue_stats(&items, &ended),
        NodeQueueStats {
            pending: 2,
            decided: 3,
            expired: 1,
            escalated: 1,
            by_role: vec![("Supervisor".into(), 2), ("no role recorded".into(), 1)],
        }
    );
    let rows = decided_rows(&ended);
    assert_eq!(rows.len(), 4);
    assert_eq!(rows[0], &ended[3], "newest first");
}

#[test]
fn a_decision_is_attributed_as_the_node_recorded_it() {
    assert_eq!(who(Some("9"), Some("Supervisor"), "nobody"), "operator 9 as Supervisor");
    assert_eq!(who(Some("9"), None, "nobody"), "operator 9, whose role was not recorded");
    assert_eq!(who(None, Some("Supervisor"), "nobody this node can name"), "nobody this node can name");
}

#[test]
fn a_decision_is_posted_only_over_a_link_and_under_a_signed_in_operator() {
    assert_eq!(decision_poster(false, Some(3)), Err("this desktop decides through its node, and no link is up"));
    assert!(decision_poster(true, None).unwrap_err().starts_with("nobody is signed in"));
    assert_eq!(decision_poster(true, Some(3)), Ok(3));
    assert_eq!(request_key(3, PendingApprovalId(41)), "gungnir-app/3/41");
}
