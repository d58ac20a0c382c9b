//! Error taxonomy: fatal configuration errors at construction time, and
//! recoverable per-send dispatch failures reported by the transport boundary.

use vstd::prelude::*;

verus! {

/// Construction-time error: the requested configuration cannot produce a
/// working component (for example, a zero frame duration would make the
/// clock's catch-up loop unbounded).
#[derive(Clone, Copy, Debug, PartialEq, Eq, Structural)]
pub enum ConfigError {
    InvalidConfiguration,
}

/// Per-send, recoverable failure: the transport could not deliver the
/// message for `frame`. The clock and gate state are updated before
/// dispatch, so a failed dispatch never rolls anything back; the failure is
/// reported, logged by the host, and the loop continues.
#[derive(Debug)]
pub struct DispatchFailed {
    /// The simulation frame whose message could not be dispatched.
    pub frame: u32,
    /// The transport's own description of the failure.
    pub cause: String,
}

impl DispatchFailed {
    pub fn new(frame: u32, cause: String) -> (r: DispatchFailed)
        ensures
            r.frame == frame,
            r.cause == cause,
    {
        DispatchFailed { frame, cause }
    }
}

} // verus!
