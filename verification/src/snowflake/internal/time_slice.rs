//! Generator state for one logical time slice.

use vstd::prelude::*;

verus! {

/// Timestamp and sequence pair reserved by an allocation.
#[derive(Debug, Clone, Copy, PartialEq, Eq, Structural)]
pub struct TimeSlice {
    /// Encoded logical timestamp.
    pub timestamp: u64,
    /// Last sequence reserved within the timestamp.
    pub sequence: u64,
}

impl TimeSlice {
    /// Creates a time slice whose first sequence, zero, is reserved.
    pub fn new(timestamp: u64) -> (slice: Self)
        ensures
            slice == (TimeSlice { timestamp, sequence: 0 }),
    {
        TimeSlice { timestamp, sequence: 0 }
    }

    /// Whether this slice comes strictly before `other`: an earlier
    /// timestamp, or the same timestamp and a smaller sequence.
    pub open spec fn precedes(self, other: TimeSlice) -> bool {
        self.timestamp < other.timestamp || (self.timestamp == other.timestamp && self.sequence
            < other.sequence)
    }
}

} // verus!
