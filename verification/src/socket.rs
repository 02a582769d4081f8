//! The decisions of one websocket connection: what a client frame asks for,
//! which frame carries a message to the client, and how the connection ends.
use vstd::prelude::*;
use crate::commands::ClientMessage;

verus! {

/// Close code sent when the server stops serving a connection.
pub const RESTART: u16 = 1012;

/// Reason sent with the closing frame.
pub const FAREWELL_REASON: &'static str = "Adios, amigo!";

/// Seconds between two pings of a connection.
pub const PING_INTERVAL_SECS: u64 = 5;

/// Messages that may wait for one connection.
pub const CLIENT_CHANNEL_CAPACITY: usize = 64;

/// Close code and reason of a closing frame.
#[derive(Debug, PartialEq, Eq)]
pub struct CloseInfo {
    pub code: u16,
    pub reason: String,
}

/// A frame received from a client.
#[derive(Debug, PartialEq, Eq)]
pub enum IncomingFrame {
    Text(String),
    Binary(Vec<u8>),
    Ping(Vec<u8>),
    Pong(Vec<u8>),
    Close(Option<CloseInfo>),
}

/// A frame sent to a client.
#[derive(Debug, PartialEq, Eq)]
pub enum OutgoingFrame {
    Text(String),
    Ping(Vec<u8>),
    Close(CloseInfo),
}

/// What the receiving side does with a client frame.
#[derive(Debug, PartialEq, Eq)]
pub enum IncomingAction {
    /// Read the text as a request and go on.
    Submit(String),
    /// Go on without acting.
    Ignore,
    /// The client closed the connection: stop receiving.
    Stop,
}

/// The three tasks that serve one connection.
#[derive(Debug, PartialEq, Eq, Clone, Copy, Structural)]
pub enum SocketTask {
    /// Forwards queued messages to the socket.
    Send,
    /// Reads client frames.
    Receive,
    /// Queues periodic pings.
    Ping,
}

/// Text frames are requests, a closing frame ends the receiving side, and
/// every other frame is passed over.
pub fn process_socket_message(frame: IncomingFrame) -> (action: IncomingAction)
    ensures
        match frame {
            IncomingFrame::Text(text) => action == IncomingAction::Submit(text),
            IncomingFrame::Close(_) => action == IncomingAction::Stop,
            _ => action == IncomingAction::Ignore,
        },
{
    match frame {
        IncomingFrame::Text(text) => IncomingAction::Submit(text),
        IncomingFrame::Binary(_) => IncomingAction::Ignore,
        IncomingFrame::Ping(_) => IncomingAction::Ignore,
        IncomingFrame::Pong(_) => IncomingAction::Ignore,
        IncomingFrame::Close(_) => IncomingAction::Stop,
    }
}

/// The frame that carries a message to the client: a text response as a text
/// frame, a ping as a ping frame with an empty payload.
pub fn process_client_message(message: ClientMessage) -> (frame: OutgoingFrame)
    ensures
        match message {
            ClientMessage::SendTextResponse(text) => frame == OutgoingFrame::Text(text),
            ClientMessage::SendPing => frame matches OutgoingFrame::Ping(payload) && payload@.len() == 0,
        },
{
    match message {
        ClientMessage::SendTextResponse(text) => OutgoingFrame::Text(text),
        ClientMessage::SendPing => OutgoingFrame::Ping(Vec::new()),
    }
}

/// The frame sent once no more messages can reach the connection.
pub fn farewell_frame() -> (frame: OutgoingFrame)
    ensures
        frame matches OutgoingFrame::Close(info) && info.code == RESTART && info.reason@
            == FAREWELL_REASON@,
{
    OutgoingFrame::Close(CloseInfo { code: RESTART, reason: FAREWELL_REASON.to_owned() })
}

/// The tasks to cancel once `finished` has ended: the two others, in the
/// order in which they are cancelled.
pub fn tasks_to_abort(finished: SocketTask) -> (others: Vec<SocketTask>)
    ensures
        others@ == match finished {
            SocketTask::Receive => seq![SocketTask::Send, SocketTask::Ping],
            SocketTask::Send => seq![SocketTask::Receive, SocketTask::Ping],
            SocketTask::Ping => seq![SocketTask::Send, SocketTask::Receive],
        },
{
    let mut others: Vec<SocketTask> = Vec::new();
    match finished {
        SocketTask::Receive => {
            others.push(SocketTask::Send);
            others.push(SocketTask::Ping);
        },
        SocketTask::Send => {
            others.push(SocketTask::Receive);
            others.push(SocketTask::Ping);
        },
        SocketTask::Ping => {
            others.push(SocketTask::Send);
            others.push(SocketTask::Receive);
        },
    }
    others
}

} // verus!
