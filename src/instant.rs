use vstd::prelude::*;

verus! {

/// Nanoseconds in one day.
pub const NANOS_PER_DAY: i128 = 86_400_000_000_000;

/// A UTC instant: whole seconds since the Unix epoch plus a sub-second
/// nanosecond part (which may exceed one second during a leap second).
#[derive(Clone, Copy, Debug, PartialEq, Eq, Structural)]
pub struct Instant {
    pub secs: i64,
    pub nanos: u32,
}

impl Instant {
    /// The instant as a count of nanoseconds since the epoch.
    pub open spec fn value(self) -> int {
        self.secs * 1_000_000_000 + self.nanos
    }

    /// Nanoseconds since the epoch, computed exactly.
    pub fn nanos_since_epoch(&self) -> (r: i128)
        ensures
            r == self.value(),
    {
        self.secs as i128 * 1_000_000_000 + self.nanos as i128
    }
}

} // verus!
