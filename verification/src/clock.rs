//! Points in time as the state machines see them: readings of a clock that
//! their caller owns.

use vstd::prelude::*;

verus! {

/// A reading of a monotonic clock, in nanoseconds since an origin that the
/// owner of the clock chose.
#[derive(Clone, Copy, Debug, PartialEq, Eq, Structural)]
pub struct Timestamp {
    pub nanos: u64,
}

/// The later of two readings.
pub open spec fn later_of(a: Timestamp, b: Timestamp) -> Timestamp {
    if a.nanos >= b.nanos {
        a
    } else {
        b
    }
}

/// The nanoseconds from `earlier` to `later`, and zero where `later` is not
/// later.
pub open spec fn nanos_between(earlier: Timestamp, later: Timestamp) -> u64 {
    if later.nanos >= earlier.nanos {
        (later.nanos - earlier.nanos) as u64
    } else {
        0
    }
}

impl Timestamp {
    /// The reading `nanos` nanoseconds after the origin.
    pub fn from_nanos(nanos: u64) -> (reading: Timestamp)
        ensures
            reading.nanos == nanos,
    {
        Timestamp { nanos }
    }

    /// The later of this reading and `other`.
    pub fn or_later(self, other: Timestamp) -> (reading: Timestamp)
        ensures
            reading == later_of(self, other),
    {
        if self.nanos >= other.nanos {
            self
        } else {
            other
        }
    }

    /// The nanoseconds that passed from `earlier` to this reading; zero where
    /// this reading is not later than `earlier`.
    pub fn nanos_since(self, earlier: Timestamp) -> (elapsed: u64)
        ensures
            elapsed == nanos_between(earlier, self),
    {
        if self.nanos >= earlier.nanos {
            self.nanos - earlier.nanos
        } else {
            0
        }
    }
}

} // verus!
