//! Block time with nanosecond resolution.

use vstd::prelude::*;

verus! {

/// Nanoseconds in one second.
pub const NANOS_PER_SECOND: u64 = 1_000_000_000;

/// A point in time, held as nanoseconds since the epoch.
#[derive(Clone, Copy, Debug, PartialEq, Eq, Structural)]
pub struct Timestamp {
    pub nanos: u64,
}

impl Timestamp {
    /// Creates a timestamp from nanoseconds since the epoch.
    pub fn from_nanos(nanos_since_epoch: u64) -> (t: Timestamp)
        ensures
            t.nanos == nanos_since_epoch,
    {
        Timestamp { nanos: nanos_since_epoch }
    }

    /// Creates a timestamp from whole seconds since the epoch.
    pub fn from_seconds(seconds_since_epoch: u64) -> (t: Timestamp)
        requires
            seconds_since_epoch * NANOS_PER_SECOND <= u64::MAX,
        ensures
            t.nanos == seconds_since_epoch * NANOS_PER_SECOND,
    {
        Timestamp { nanos: seconds_since_epoch * NANOS_PER_SECOND }
    }

    /// Nanoseconds since the epoch.
    pub fn nanos(&self) -> (n: u64)
        ensures
            n == self.nanos,
    {
        self.nanos
    }

    /// Seconds since the epoch, with the nanoseconds truncated.
    pub fn seconds(&self) -> (s: u64)
        ensures
            s == self.nanos / NANOS_PER_SECOND,
    {
        self.nanos / NANOS_PER_SECOND
    }
}

} // verus!
