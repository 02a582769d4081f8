//! Moving client tasks onto the shared task queue.
use vstd::prelude::*;
use crate::commands::{ClientGeneratedTask, InstanceGeneratedTask};
use crate::control::LoopControl;

verus! {

/// Key of the stream that holds the tasks of every instance.
pub const TASK_QUEUE: &'static str = "streaming_tasks_queue:requests";

/// Entry id that lets the stream choose the id of a new entry.
pub const NEW_ENTRY_ID: &'static str = "*";

/// The entry field that holds the task document.
pub const TASK_FIELD: &'static str = "task";

/// The entry field that holds the trace context document.
pub const CONTEXT_FIELD: &'static str = "ctx";

/// A new entry for the task queue.
#[derive(Debug, PartialEq, Eq)]
pub struct QueueEntry {
    pub stream: String,
    pub id: String,
    pub fields: Vec<(String, String)>,
}

/// Stamps a client task with the instance that received it.
pub fn stamp_task(instance_id: &String, task: ClientGeneratedTask) -> (stamped: InstanceGeneratedTask)
    ensures
        stamped.instance_id == *instance_id,
        stamped.inner == task,
{
    InstanceGeneratedTask { instance_id: instance_id.clone(), inner: task }
}

/// The queue entry for a task document and the trace context it was made in.
pub fn task_queue_entry(task_json: String, context_json: String) -> (entry: QueueEntry)
    ensures
        entry.stream@ == TASK_QUEUE@,
        entry.id@ == NEW_ENTRY_ID@,
        entry.fields@.len() == 2,
        entry.fields@[0].0@ == TASK_FIELD@,
        entry.fields@[0].1@ == task_json@,
        entry.fields@[1].0@ == CONTEXT_FIELD@,
        entry.fields@[1].1@ == context_json@,
{
    let mut fields: Vec<(String, String)> = Vec::new();
    fields.push((TASK_FIELD.to_owned(), task_json));
    fields.push((CONTEXT_FIELD.to_owned(), context_json));
    QueueEntry { stream: TASK_QUEUE.to_owned(), id: NEW_ENTRY_ID.to_owned(), fields }
}

/// What the task loop learns while it waits.
pub enum TaskgenEvent {
    /// A client task arrived.
    TaskReceived(ClientGeneratedTask),
    /// The shutdown channel closed.
    ShutdownClosed,
}

/// What the task loop does next.
#[derive(Debug, PartialEq, Eq)]
pub enum TaskgenAction {
    /// Add the stamped task to the queue.
    Enqueue { task: InstanceGeneratedTask },
    /// Leave the loop.
    Stop,
}

/// The task loop of `instance_id` enqueues every task it receives, stamped
/// with the instance, and stops when the shutdown channel closes.
pub fn taskgen_step(instance_id: &String, event: TaskgenEvent) -> (action: TaskgenAction)
    ensures
        match event {
            TaskgenEvent::TaskReceived(task) => match action {
                TaskgenAction::Enqueue { task: stamped } => stamped.instance_id == *instance_id
                    && stamped.inner == task,
                TaskgenAction::Stop => false,
            },
            TaskgenEvent::ShutdownClosed => action == TaskgenAction::Stop,
        },
{
    match event {
        TaskgenEvent::TaskReceived(task) => TaskgenAction::Enqueue { task: stamp_task(instance_id, task) },
        TaskgenEvent::ShutdownClosed => TaskgenAction::Stop,
    }
}

/// A task that could not be enqueued ends the loop.
pub fn after_enqueue(enqueued: bool) -> (control: LoopControl)
    ensures
        control == (if enqueued { LoopControl::Continue } else { LoopControl::Stop }),
{
    if enqueued {
        LoopControl::Continue
    } else {
        LoopControl::Stop
    }
}

} // verus!
