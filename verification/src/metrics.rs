//! Counting the open websocket connections in the process's metrics recorder.
use vstd::prelude::*;
use crate::gauge::{gauge_decrement, gauge_increment, GaugeChange, GaugeUpdate};

verus! {

/// Name of the gauge that counts open websocket connections.
pub const WEBSOCKET_CONNECTIONS: &'static str = "websocket_connections_total";

/// Name of the histogram of how long websocket connections stay open, in seconds.
pub const WEBSOCKET_CONNECTED_DURATION: &'static str = "websocket_connected_duration_seconds";

/// Name of the histogram of how long HTTP requests take, in seconds.
pub const HTTP_REQUESTS_DURATION: &'static str = "http_requests_duration_seconds";

/// Counts one more open websocket connection: hands the recorder a raise by
/// one of the gauge of open connections, and returns that handed change,
/// which only the recorder call can produce.
pub fn record_websocket_connect() -> (sent: GaugeUpdate)
    ensures
        sent.gauge() == WEBSOCKET_CONNECTIONS@,
        sent.change() == GaugeChange::Raise(1),
{
    gauge_increment(WEBSOCKET_CONNECTIONS, 1)
}

/// Counts one open websocket connection less: hands the recorder a lowering
/// by one of the gauge of open connections, and returns that handed change,
/// which only the recorder call can produce.
pub fn record_websocket_disconnect() -> (sent: GaugeUpdate)
    ensures
        sent.gauge() == WEBSOCKET_CONNECTIONS@,
        sent.change() == GaugeChange::Lower(1),
{
    gauge_decrement(WEBSOCKET_CONNECTIONS, 1)
}

/// An open websocket connection that has been counted on the gauge of open
/// connections and is to be uncounted when it ends.
pub struct CountedConnection {
    opened: GaugeUpdate,
}

impl CountedConnection {
    #[verifier::type_invariant]
    closed spec fn inv(self) -> bool {
        &&& self.opened.gauge() == WEBSOCKET_CONNECTIONS@
        &&& self.opened.change() == GaugeChange::Raise(1)
    }

    /// What was handed to the recorder when the connection was counted.
    pub closed spec fn opened(self) -> GaugeUpdate {
        self.opened
    }

    /// Counts a new connection.
    pub fn begin() -> (c: Self)
        ensures
            c.opened().gauge() == WEBSOCKET_CONNECTIONS@,
            c.opened().change() == GaugeChange::Raise(1),
    {
        CountedConnection { opened: record_websocket_connect() }
    }

    /// Uncounts the connection, returning what was handed to the recorder when
    /// it was counted and when it was uncounted: the same gauge, moved up by
    /// one and then down by one.
    pub fn end(self) -> (changes: (GaugeUpdate, GaugeUpdate))
        ensures
            changes.0 == self.opened(),
            changes.1.gauge() == WEBSOCKET_CONNECTIONS@,
            changes.1.change() == GaugeChange::Lower(1),
            changes.0.gauge() == changes.1.gauge(),
            net_change(changes.0.change()) + net_change(changes.1.change()) == 0,
    {
        proof {
            use_type_invariant(&self);
        }
        let closed = record_websocket_disconnect();
        (self.opened, closed)
    }
}

/// A connection counted on opening and uncounted on closing leaves the gauge
/// of open connections where it was: the two changes the recorder was handed
/// go to the same gauge and cancel out.
pub proof fn law_connect_disconnect_balance(opened: GaugeUpdate, closed: GaugeUpdate)
    requires
        opened.gauge() == WEBSOCKET_CONNECTIONS@,
        opened.change() == GaugeChange::Raise(1),
        closed.gauge() == WEBSOCKET_CONNECTIONS@,
        closed.change() == GaugeChange::Lower(1),
    ensures
        opened.gauge() == closed.gauge(),
        net_change(opened.change()) + net_change(closed.change()) == 0,
{
}

/// The signed amount a change moves a gauge by.
pub open spec fn net_change(change: GaugeChange) -> int {
    match change {
        GaugeChange::Raise(n) => n as int,
        GaugeChange::Lower(n) => -(n as int),
    }
}

} // verus!
