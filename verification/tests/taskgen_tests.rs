use streamer2::commands::{
    process_command, task_for_request, ClientGeneratedTask, Command, InstanceGeneratedTask,
    StreamingRequest,
};
use streamer2::control::LoopControl;
use streamer2::taskgen::{
    after_enqueue, stamp_task, task_queue_entry, taskgen_step, TaskgenAction, TaskgenEvent,
    CONTEXT_FIELD, NEW_ENTRY_ID, TASK_FIELD, TASK_QUEUE,
};

fn s(x: &str) -> String {
    x.to_string()
}

fn task() -> ClientGeneratedTask {
    ClientGeneratedTask { client_id: s("c1"), command: Command::Translate(s("hello")) }
}

#[test]
fn command_becomes_client_task() {
    let t = process_command(Command::Translate(s("hi")), &s("client-7"));
    assert_eq!(t, ClientGeneratedTask { client_id: s("client-7"), command: Command::Translate(s("hi")) });
}

#[test]
fn task_is_stamped_with_instance() {
    let st = stamp_task(&s("inst-1"), task());
    assert_eq!(st, InstanceGeneratedTask { instance_id: s("inst-1"), inner: task() });
}

#[test]
fn queue_entry_layout() {
    let e = task_queue_entry(s("{\"t\":1}"), s("{}"));
    assert_eq!(e.stream, "streaming_tasks_queue:requests");
    assert_eq!(e.id, "*");
    assert_eq!(e.fields, vec![(s("task"), s("{\"t\":1}")), (s("ctx"), s("{}"))]);
    assert_eq!(TASK_QUEUE, "streaming_tasks_queue:requests");
    assert_eq!(NEW_ENTRY_ID, "*");
    assert_eq!(TASK_FIELD, "task");
    assert_eq!(CONTEXT_FIELD, "ctx");
}

#[test]
fn received_task_is_enqueued() {
    let a = taskgen_step(&s("inst-2"), TaskgenEvent::TaskReceived(task()));
    assert_eq!(a, TaskgenAction::Enqueue { task: InstanceGeneratedTask { instance_id: s("inst-2"), inner: task() } });
}

#[test]
fn shutdown_stops_task_loop() {
    assert_eq!(taskgen_step(&s("inst-2"), TaskgenEvent::ShutdownClosed), TaskgenAction::Stop);
}

#[test]
fn failed_enqueue_stops_task_loop() {
    assert_eq!(after_enqueue(true), LoopControl::Continue);
    assert_eq!(after_enqueue(false), LoopControl::Stop);
}

#[test]
fn parsed_request_becomes_task_and_unparsed_makes_none() {
    let req = StreamingRequest { command: Command::Translate(s("hi")) };
    assert_eq!(
        task_for_request(Some(req), &s("c9")),
        Some(ClientGeneratedTask { client_id: s("c9"), command: Command::Translate(s("hi")) })
    );
    assert_eq!(task_for_request(None, &s("c9")), None);
}
