//! Sensor tasks through the node, and what the node sends back.
//!
//! A command an operator issues is recorded locally, handed to the link, and answered by
//! the node with its own task id, which is mapped to ours; the sensor's acknowledgement,
//! refusal or silence then arrives naming the node's id and is applied to our task. The
//! local mode never changes until the sensor's acknowledgement comes back this way. With
//! no link the task is refused at the door with the reason, and recorded as failed rather
//! than left to time out.

use vstd::prelude::*;
use std::collections::HashMap;
use crate::text::{decimal, push_decimal, push_str};

verus! {

broadcast use vstd::std_specs::hash::group_hash_axioms;

/// Why a task cannot be handed to the node when no link is connected.
pub open spec fn no_link_reason() -> Seq<char> {
    "no node link: this desktop delivers sensor tasks through its node, and none is connected"@
}

/// Whether a task can be handed to the node: only over a connected link, else refused
/// with the reason.
pub fn issue_through_link(linked: bool) -> (issued: Result<(), &'static str>)
    ensures
        linked ==> issued is Ok,
        !linked ==> (issued matches Err(r) && r@ == no_link_reason()),
{
    if linked {
        Ok(())
    } else {
        Err("no node link: this desktop delivers sensor tasks through its node, and none is connected")
    }
}

/// The node's answer to a delivered task: its own task id, or why it refused. The id is
/// mapped to ours; a refusal is the local task's failure, with the reason it returns.
pub fn take_outcome(map: &mut HashMap<u64, u64>, local: u64, outcome: Result<u64, String>) -> (failure: Option<String>)
    ensures
        match outcome {
            Ok(node_task) => failure is None && final(map)@ == old(map)@.insert(node_task, local),
            Err(reason) => final(map)@ == old(map)@
                && (failure matches Some(f) && f@ == "the node refused the task: "@ + reason@),
        },
{
    match outcome {
        Ok(node_task) => {
            map.insert(node_task, local);
            None
        },
        Err(reason) => {
            let mut f = String::from_str("the node refused the task: ");
            push_str(&mut f, reason.as_str());
            Some(f)
        },
    }
}

/// What the node streamed about a task, under the node's own task id.
#[derive(Debug, Clone, PartialEq, Eq)]
pub enum TaskEvent {
    Issued { task: u64 },
    Acknowledged { task: u64, sensor: u32 },
    Failed { task: u64, reason: String },
    Unacknowledged { task: u64 },
}

/// What to do with our own task for an event the node streamed.
#[derive(Debug, Clone, PartialEq, Eq)]
pub enum TaskAction {
    /// Nothing: a task this desktop did not map, or the node's own issue.
    Ignore,
    Acknowledge { local: u64, sensor: u32 },
    Fail { local: u64, reason: String },
}

/// Why a task the node's window closed on failed.
pub open spec fn unacknowledged_reason() -> Seq<char> {
    "the node's acknowledgement window closed with nothing back"@
}

/// What to do with our own task for an event the node streamed about one of its tasks.
pub fn task_event_action(map: &HashMap<u64, u64>, event: &TaskEvent) -> (action: TaskAction)
    ensures
        action is Acknowledge ==> event is Acknowledged,
        match *event {
            TaskEvent::Issued { .. } => action == TaskAction::Ignore,
            TaskEvent::Acknowledged { task, sensor } => if map@.contains_key(task) {
                action == (TaskAction::Acknowledge { local: map@[task], sensor })
            } else {
                action == TaskAction::Ignore
            },
            TaskEvent::Failed { task, reason } => if map@.contains_key(task) {
                (action matches TaskAction::Fail { local, reason: r } && local == map@[task] && r@ == reason@)
            } else {
                action == TaskAction::Ignore
            },
            TaskEvent::Unacknowledged { task } => if map@.contains_key(task) {
                (action matches TaskAction::Fail { local, reason: r } && local == map@[task] && r@ == unacknowledged_reason())
            } else {
                action == TaskAction::Ignore
            },
        },
{
    match event {
        TaskEvent::Issued { .. } => TaskAction::Ignore,
        TaskEvent::Acknowledged { task, sensor } => match map.get(task) {
            Some(local) => TaskAction::Acknowledge { local: *local, sensor: *sensor },
            None => TaskAction::Ignore,
        },
        TaskEvent::Failed { task, reason } => match map.get(task) {
            Some(local) => TaskAction::Fail { local: *local, reason: reason.clone() },
            None => TaskAction::Ignore,
        },
        TaskEvent::Unacknowledged { task } => match map.get(task) {
            Some(local) => TaskAction::Fail {
                local: *local,
                reason: String::from_str("the node's acknowledgement window closed with nothing back"),
            },
            None => TaskAction::Ignore,
        },
    }
}

/// The alert for a sensor's acknowledgement applied through the node.
pub fn acknowledged(sensor: u32, local: u64) -> (alert: String)
    ensures
        alert@ == "sensor "@ + decimal(sensor as nat) + " acknowledged task "@ + decimal(local as nat) + " through the node"@,
{
    let mut a = String::from_str("sensor ");
    push_decimal(&mut a, sensor as u64);
    push_str(&mut a, " acknowledged task ");
    push_decimal(&mut a, local);
    push_str(&mut a, " through the node");
    a
}

/// The alert for an acknowledgement this desktop could not apply.
pub fn acknowledgement_not_applied(sensor: u32, local: u64, error: &str) -> (alert: String)
    ensures
        alert@ == "the node reported sensor "@ + decimal(sensor as nat) + " acknowledged task "@ + decimal(local as nat)
            + ", which this desktop could not apply: "@ + error@,
{
    let mut a = String::from_str("the node reported sensor ");
    push_decimal(&mut a, sensor as u64);
    push_str(&mut a, " acknowledged task ");
    push_decimal(&mut a, local);
    push_str(&mut a, ", which this desktop could not apply: ");
    push_str(&mut a, error);
    a
}

/// The alert for a task that failed.
pub fn task_failed(local: u64, reason: &str) -> (alert: String)
    ensures
        alert@ == "sensor task "@ + decimal(local as nat) + " failed: "@ + reason@,
{
    let mut a = String::from_str("sensor task ");
    push_decimal(&mut a, local);
    push_str(&mut a, " failed: ");
    push_str(&mut a, reason);
    a
}

/// The alert for a failure this desktop could not record.
pub fn failure_not_recorded(local: u64, reason: &str, error: &str) -> (alert: String)
    ensures
        alert@ == "task "@ + decimal(local as nat) + " failed at the node ("@ + reason@
            + ") and this desktop could not record it: "@ + error@,
{
    let mut a = String::from_str("task ");
    push_decimal(&mut a, local);
    push_str(&mut a, " failed at the node (");
    push_str(&mut a, reason);
    push_str(&mut a, ") and this desktop could not record it: ");
    push_str(&mut a, error);
    a
}

} // verus!
