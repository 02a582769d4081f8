//! The answers of the plain HTTP endpoints and what a connection request is
//! labelled with.
use vstd::prelude::*;

verus! {

/// Path of the health endpoint.
pub const STATUS_PATH: &'static str = "/streamer2/v1/status";

/// Path where clients open their websocket.
pub const TRANSLATE_PATH: &'static str = "/streamer2/v1/translate";

/// Path of the endpoint that always fails.
pub const FAULTY_PATH: &'static str = "/streamer2/v1/faulty";

/// Path of the endpoint that answers late.
pub const SLOW_PATH: &'static str = "/streamer2/v1/slow";

/// How long the slow endpoint waits before it answers, in milliseconds.
pub const SLOW_DELAY_MS: u64 = 800;

/// Label of a connection request that names no user agent.
pub const UNKNOWN_USER_AGENT: &'static str = "Unknown";

/// Status code and body of an answer.
#[derive(Debug, PartialEq, Eq)]
pub struct HttpReply {
    pub status: u16,
    pub body: String,
}

/// The health endpoint answers 200 with `OK`.
pub fn status() -> (reply: HttpReply)
    ensures
        reply.status == 200,
        reply.body@ == "OK"@,
{
    HttpReply { status: 200, body: "OK".to_owned() }
}

/// The faulty endpoint answers 500 with an empty body.
pub fn faulty_handler() -> (reply: HttpReply)
    ensures
        reply.status == 500,
        reply.body@.len() == 0,
{
    HttpReply { status: 500, body: String::new() }
}

/// The slow endpoint answers 200 with `SLOW RESPONSE`, once its delay is over.
pub fn slow_handler() -> (reply: HttpReply)
    ensures
        reply.status == 200,
        reply.body@ == "SLOW RESPONSE"@,
{
    HttpReply { status: 200, body: "SLOW RESPONSE".to_owned() }
}

/// The user agent a connection request is logged with.
pub fn user_agent_label(user_agent: Option<String>) -> (label: String)
    ensures
        label@ == match user_agent {
            Some(agent) => agent@,
            None => UNKNOWN_USER_AGENT@,
        },
{
    match user_agent {
        Some(agent) => agent,
        None => UNKNOWN_USER_AGENT.to_owned(),
    }
}

} // verus!
