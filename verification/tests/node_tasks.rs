use gungnir_app::node_tasks::{
    acknowledged, acknowledgement_not_applied, failure_not_recorded, issue_through_link, take_outcome,
    task_event_action, task_failed, TaskAction, TaskEvent,
};
use std::collections::HashMap;

#[test]
fn a_task_without_a_link_is_refused_at_the_door() {
    assert_eq!(issue_through_link(true), Ok(()));
    assert_eq!(
        issue_through_link(false),
        Err("no node link: this desktop delivers sensor tasks through its node, and none is connected")
    );
}

#[test]
fn the_nodes_id_is_mapped_to_ours_and_a_refusal_fails_ours() {
    let mut map = HashMap::new();
    assert_eq!(take_outcome(&mut map, 7, Ok(900)), None);
    assert_eq!(map.get(&900), Some(&7));
    assert_eq!(
        take_outcome(&mut map, 8, Err("sensor busy".into())),
        Some("the node refused the task: sensor busy".into())
    );
    assert_eq!(map.len(), 1);
}

#[test]
fn only_a_mapped_task_is_acted_on() {
    let mut map = HashMap::new();
    map.insert(900u64, 7u64);
    assert_eq!(
        task_event_action(&map, &TaskEvent::Acknowledged { task: 900, sensor: 3 }),
        TaskAction::Acknowledge { local: 7, sensor: 3 }
    );
    assert_eq!(task_event_action(&map, &TaskEvent::Acknowledged { task: 901, sensor: 3 }), TaskAction::Ignore);
    assert_eq!(
        task_event_action(&map, &TaskEvent::Unacknowledged { task: 900 }),
        TaskAction::Fail { local: 7, reason: "the node's acknowledgement window closed with nothing back".into() }
    );
    assert_eq!(
        task_event_action(&map, &TaskEvent::Failed { task: 900, reason: "jammed".into() }),
        TaskAction::Fail { local: 7, reason: "jammed".into() }
    );
    assert_eq!(task_event_action(&map, &TaskEvent::Issued { task: 900 }), TaskAction::Ignore);
}

#[test]
fn task_alerts_name_the_sensor_and_the_task() {
    assert_eq!(acknowledged(3, 7), "sensor 3 acknowledged task 7 through the node");
    assert_eq!(
        acknowledgement_not_applied(3, 7, "no such task"),
        "the node reported sensor 3 acknowledged task 7, which this desktop could not apply: no such task"
    );
    assert_eq!(task_failed(7, "jammed"), "sensor task 7 failed: jammed");
    assert_eq!(
        failure_not_recorded(7, "jammed", "already closed"),
        "task 7 failed at the node (jammed) and this desktop could not record it: already closed"
    );
}
