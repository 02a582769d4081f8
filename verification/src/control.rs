//! Whether a loop of the service keeps running.
use vstd::prelude::*;

verus! {

/// What a loop does after handling one event.
#[derive(Debug, PartialEq, Eq, Clone, Copy, Structural)]
pub enum LoopControl {
    /// Wait for the next event.
    Continue,
    /// Leave the loop.
    Stop,
}

} // verus!
