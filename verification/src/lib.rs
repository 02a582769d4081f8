//! Decision logic of the streaming gateway: the messages it exchanges with
//! websocket clients and with the task queue, the registry that routes
//! responses to connected clients, and the steps of its queue loops.
//! The surrounding I/O (sockets, Redis, channels, HTTP) lives in the
//! application crate and hands plain values to these functions.

pub mod commands;
pub mod registry;
pub mod control;
pub mod responder;
pub mod socket;
pub mod taskgen;
pub mod ids;
pub mod metrics;
pub mod http;
pub mod gauge;
