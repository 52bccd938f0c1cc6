//! Decoded fields of a Qubit snowflake ID.

use vstd::prelude::*;

use crate::id_mode::IdMode;
use crate::timestamp_precision::TimestampPrecision;

verus! {

/// Fields decoded from a Qubit snowflake ID.
///
/// Decoding only extracts fields according to the bit layout; it does not
/// authenticate the value or prove that a generator produced it.
#[derive(Debug, Clone, Copy, PartialEq, Eq, Structural, Hash)]
pub struct QubitSnowflakeParts {
    mode: IdMode,
    precision: TimestampPrecision,
    timestamp: u64,
    host: u64,
    sequence: u64,
}

impl QubitSnowflakeParts {
    /// Decoded ordering mode.
    pub closed spec fn spec_mode(self) -> IdMode {
        self.mode
    }

    /// Decoded timestamp precision.
    pub closed spec fn spec_precision(self) -> TimestampPrecision {
        self.precision
    }

    /// Decoded timestamp.
    pub closed spec fn spec_timestamp(self) -> u64 {
        self.timestamp
    }

    /// Decoded host identifier.
    pub closed spec fn spec_host(self) -> u64 {
        self.host
    }

    /// Decoded sequence number.
    pub closed spec fn spec_sequence(self) -> u64 {
        self.sequence
    }

    /// Creates decoded Qubit snowflake parts.
    pub(crate) fn new(
        mode: IdMode,
        precision: TimestampPrecision,
        timestamp: u64,
        host: u64,
        sequence: u64,
    ) -> (parts: Self)
        ensures
            parts.spec_mode() == mode,
            parts.spec_precision() == precision,
            parts.spec_timestamp() == timestamp,
            parts.spec_host() == host,
            parts.spec_sequence() == sequence,
    {
        QubitSnowflakeParts { mode, precision, timestamp, host, sequence }
    }

    /// Returns the encoded ID ordering mode.
    pub fn mode(self) -> (mode: IdMode)
        ensures
            mode == self.spec_mode(),
    {
        self.mode
    }

    /// Returns the encoded timestamp precision.
    pub fn precision(self) -> (precision: TimestampPrecision)
        ensures
            precision == self.spec_precision(),
    {
        self.precision
    }

    /// Returns the timestamp measured in the encoded precision.
    pub fn timestamp(self) -> (timestamp: u64)
        ensures
            timestamp == self.spec_timestamp(),
    {
        self.timestamp
    }

    /// Returns the encoded host identifier.
    pub fn host(self) -> (host: u64)
        ensures
            host == self.spec_host(),
    {
        self.host
    }

    /// Returns the sequence number inside the timestamp slice.
    pub fn sequence(self) -> (sequence: u64)
        ensures
            sequence == self.spec_sequence(),
    {
        self.sequence
    }
}

} // verus!
