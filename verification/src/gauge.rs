//! Changes handed to gauges of the process's metrics recorder. A
//! `GaugeUpdate` can be made only by the recorder calls of this module, so
//! holding one shows that its change was handed to the recorder.
use vstd::prelude::*;

verus! {

/// Target and module under which the gauges are registered.
pub const METRICS_TARGET: &'static str = "streamer2::metrics";

/// A change handed to a gauge.
#[derive(Debug, PartialEq, Eq, Clone, Copy, Structural)]
pub enum GaugeChange {
    /// Raise the gauge by this much.
    Raise(u32),
    /// Lower the gauge by this much.
    Lower(u32),
}

/// The record of one change handed to the recorder: the gauge and the change.
#[derive(Debug, PartialEq, Eq)]
pub struct GaugeUpdate {
    gauge: &'static str,
    change: GaugeChange,
}

impl GaugeUpdate {
    /// The name of the gauge the change was handed to.
    pub closed spec fn gauge(self) -> Seq<char> {
        self.gauge@
    }

    /// The change handed to the gauge.
    pub closed spec fn change(self) -> GaugeChange {
        self.change
    }

    /// The name of the gauge the change was handed to.
    pub fn gauge_name(&self) -> (name: &'static str)
        ensures
            name@ == self.gauge(),
    {
        self.gauge
    }

    /// The change handed to the gauge.
    pub fn gauge_change(&self) -> (change: GaugeChange)
        ensures
            change == self.change(),
    {
        self.change
    }
}

/// Raises the gauge `name` by `amount`: registers the gauge with the
/// recorder the `metrics` crate currently holds (`metrics::with_recorder`,
/// `Recorder::register_gauge`, as the crate's `gauge!` macro does) and calls
/// `metrics::Gauge::increment` on it. Claimed: the returned record names the
/// gauge and the amount handed to that call. Not claimed: the gauge's value,
/// which lives in the recorder and the library does not see.
#[verifier::external_body]
pub(crate) fn gauge_increment(name: &'static str, amount: u32) -> (sent: GaugeUpdate)
    ensures
        sent.gauge() == name@,
        sent.change() == GaugeChange::Raise(amount),
{
    let key = ::metrics::Key::from_static_name(name);
    let metadata = ::metrics::Metadata::new(METRICS_TARGET, ::metrics::Level::INFO, Some(METRICS_TARGET));
    ::metrics::with_recorder(|recorder| recorder.register_gauge(&key, &metadata)).increment(amount);
    GaugeUpdate { gauge: name, change: GaugeChange::Raise(amount) }
}

/// Lowers the gauge `name` by `amount`: registers the gauge as
/// `gauge_increment` does and calls `metrics::Gauge::decrement` on it.
/// Claimed: the returned record names the gauge and the amount handed to that
/// call. Not claimed: the gauge's value.
#[verifier::external_body]
pub(crate) fn gauge_decrement(name: &'static str, amount: u32) -> (sent: GaugeUpdate)
    ensures
        sent.gauge() == name@,
        sent.change() == GaugeChange::Lower(amount),
{
    let key = ::metrics::Key::from_static_name(name);
    let metadata = ::metrics::Metadata::new(METRICS_TARGET, ::metrics::Level::INFO, Some(METRICS_TARGET));
    ::metrics::with_recorder(|recorder| recorder.register_gauge(&key, &metadata)).decrement(amount);
    GaugeUpdate { gauge: name, change: GaugeChange::Lower(amount) }
}

} // verus!
