//! Plain-value units used throughout the timing subsystem.

use vstd::prelude::*;

verus! {

/// A duration expressed as a whole number of microseconds.
#[derive(Clone, Copy, Debug, PartialEq, Eq, Structural)]
pub struct MicrosecondDuration(pub u64);

impl MicrosecondDuration {
    /// The duration in whole milliseconds, truncating.
    pub fn to_millis(&self) -> (r: u64)
        ensures
            r == self.0 / 1000,
    {
        self.0 / 1000
    }

    /// The duration in whole microseconds.
    pub fn to_micros(&self) -> (r: u64)
        ensures
            r == self.0,
    {
        self.0
    }
}

/// A frequency expressed as a whole number of hertz.
#[derive(Clone, Copy, Debug, PartialEq, Eq, Structural)]
pub struct Hertz(pub u32);

} // verus!
