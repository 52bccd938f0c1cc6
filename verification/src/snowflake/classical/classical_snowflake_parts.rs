//! Decoded fields from a classic Snowflake ID.

use vstd::prelude::*;

verus! {

/// Fields decoded from a classic 41/10/12 Snowflake ID.
///
/// Decoding only extracts fields according to the fixed bit layout. It does
/// not authenticate the value or prove that a generator produced it.
#[derive(Debug, Clone, Copy, PartialEq, Eq, Structural)]
pub struct ClassicalSnowflakeParts {
    /// Milliseconds elapsed since the generator epoch.
    timestamp: u64,
    /// Node identifier encoded in the ID.
    node_id: u64,
    /// Sequence number encoded in the ID.
    sequence: u64,
}

impl ClassicalSnowflakeParts {
    /// Decoded timestamp.
    pub closed spec fn spec_timestamp(self) -> u64 {
        self.timestamp
    }

    /// Decoded node identifier.
    pub closed spec fn spec_node_id(self) -> u64 {
        self.node_id
    }

    /// Decoded sequence number.
    pub closed spec fn spec_sequence(self) -> u64 {
        self.sequence
    }

    /// Creates decoded classic Snowflake parts.
    pub(crate) fn new(timestamp: u64, node_id: u64, sequence: u64) -> (parts: Self)
        ensures
            parts.spec_timestamp() == timestamp,
            parts.spec_node_id() == node_id,
            parts.spec_sequence() == sequence,
    {
        ClassicalSnowflakeParts { timestamp, node_id, sequence }
    }

    /// Returns the decoded timestamp: milliseconds since the generator epoch.
    pub fn timestamp(self) -> (timestamp: u64)
        ensures
            timestamp == self.spec_timestamp(),
    {
        self.timestamp
    }

    /// Returns the decoded node identifier.
    pub fn node_id(self) -> (node_id: u64)
        ensures
            node_id == self.spec_node_id(),
    {
        self.node_id
    }

    /// Returns the decoded sequence number.
    pub fn sequence(self) -> (sequence: u64)
        ensures
            sequence == self.spec_sequence(),
    {
        self.sequence
    }
}

} // verus!
