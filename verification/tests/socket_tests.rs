use streamer2::commands::ClientMessage;
use streamer2::socket::{
    farewell_frame, process_client_message, process_socket_message, tasks_to_abort, CloseInfo,
    IncomingAction, IncomingFrame, OutgoingFrame, SocketTask, CLIENT_CHANNEL_CAPACITY,
    FAREWELL_REASON, PING_INTERVAL_SECS, RESTART,
};

fn s(x: &str) -> String {
    x.to_string()
}

#[test]
fn text_frame_is_a_request() {
    assert_eq!(process_socket_message(IncomingFrame::Text(s("{}"))), IncomingAction::Submit(s("{}")));
}

#[test]
fn other_frames_are_passed_over() {
    assert_eq!(process_socket_message(IncomingFrame::Binary(vec![1, 2])), IncomingAction::Ignore);
    assert_eq!(process_socket_message(IncomingFrame::Ping(vec![])), IncomingAction::Ignore);
    assert_eq!(process_socket_message(IncomingFrame::Pong(vec![3])), IncomingAction::Ignore);
}

#[test]
fn close_frame_stops_receiving() {
    assert_eq!(process_socket_message(IncomingFrame::Close(None)), IncomingAction::Stop);
    let info = CloseInfo { code: 1000, reason: s("bye") };
    assert_eq!(process_socket_message(IncomingFrame::Close(Some(info))), IncomingAction::Stop);
}

#[test]
fn client_messages_become_frames() {
    assert_eq!(
        process_client_message(ClientMessage::SendTextResponse(s("hola"))),
        OutgoingFrame::Text(s("hola"))
    );
    assert_eq!(process_client_message(ClientMessage::SendPing), OutgoingFrame::Ping(vec![]));
}

#[test]
fn farewell_is_restart_close() {
    assert_eq!(farewell_frame(), OutgoingFrame::Close(CloseInfo { code: 1012, reason: s("Adios, amigo!") }));
    assert_eq!(RESTART, 1012);
    assert_eq!(FAREWELL_REASON, "Adios, amigo!");
    assert_eq!(PING_INTERVAL_SECS, 5);
    assert_eq!(CLIENT_CHANNEL_CAPACITY, 64);
}

#[test]
fn finished_task_aborts_the_others() {
    assert_eq!(tasks_to_abort(SocketTask::Receive), vec![SocketTask::Send, SocketTask::Ping]);
    assert_eq!(tasks_to_abort(SocketTask::Send), vec![SocketTask::Receive, SocketTask::Ping]);
    assert_eq!(tasks_to_abort(SocketTask::Ping), vec![SocketTask::Send, SocketTask::Receive]);
}
