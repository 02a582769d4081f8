//! Messages exchanged between clients, this instance and the task queue.
use vstd::prelude::*;

verus! {

/// A command sent by a websocket client.
#[derive(Debug, PartialEq, Eq)]
pub enum Command {
    /// Translate the given text.
    Translate(String),
}

/// The body of a text frame sent by a client.
#[derive(Debug, PartialEq, Eq)]
pub struct StreamingRequest {
    pub command: Command,
}

/// A command together with the client that issued it.
#[derive(Debug, PartialEq, Eq)]
pub struct ClientGeneratedTask {
    pub client_id: String,
    pub command: Command,
}

/// A client task stamped with the instance that received it, as it is
/// placed on the shared task queue.
#[derive(Debug, PartialEq, Eq)]
pub struct InstanceGeneratedTask {
    pub instance_id: String,
    pub inner: ClientGeneratedTask,
}

/// A message addressed to one connected client.
#[derive(Debug, PartialEq, Eq)]
pub enum ClientMessage {
    /// Probe the connection.
    SendPing,
    /// Deliver a text response.
    SendTextResponse(String),
}

/// A response produced by a worker for one client.
#[derive(Debug, PartialEq, Eq)]
pub struct StreamingResponse {
    pub client_id: String,
    pub translated: String,
}

/// Builds the task for a command received from `client_id`.
pub fn process_command(command: Command, client_id: &String) -> (task: ClientGeneratedTask)
    ensures
        task.client_id == *client_id,
        task.command == command,
{
    ClientGeneratedTask { client_id: client_id.clone(), command }
}

/// The task for a client frame, given what its text parsed as: a request
/// becomes the task of its command for `client_id`; text that did not parse
/// as a request makes no task.
pub fn task_for_request(parsed: Option<StreamingRequest>, client_id: &String) -> (task: Option<ClientGeneratedTask>)
    ensures
        match parsed {
            Some(request) => task == Some(ClientGeneratedTask { client_id: *client_id, command: request.command }),
            None => task is None,
        },
{
    match parsed {
        Some(request) => Some(process_command(request.command, client_id)),
        None => None,
    }
}

} // verus!
