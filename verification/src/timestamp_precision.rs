//! Timestamp precision encoded in Qubit snowflake IDs.

use vstd::prelude::*;

verus! {

/// Precision of the timestamp field of a Qubit snowflake ID, which also fixes
/// how the low bits are split between timestamp and sequence:
/// millisecond precision uses 41 timestamp and 12 sequence bits, second
/// precision 31 timestamp and 22 sequence bits.
#[derive(Debug, Clone, Copy, PartialEq, Eq, Structural, Hash)]
pub enum TimestampPrecision {
    /// One timestamp unit is one millisecond.
    Millisecond,
    /// One timestamp unit is one second.
    Second,
}

impl TimestampPrecision {
    /// The one-bit value that encodes this precision.
    pub open spec fn bit(self) -> u64 {
        match self {
            TimestampPrecision::Millisecond => 0,
            TimestampPrecision::Second => 1,
        }
    }

    /// The precision that a one-bit value decodes to: zero is millisecond,
    /// every other value is second.
    pub open spec fn of_bit(bit: u64) -> TimestampPrecision {
        if bit == 0 {
            TimestampPrecision::Millisecond
        } else {
            TimestampPrecision::Second
        }
    }

    /// Width of the timestamp field.
    pub open spec fn spec_timestamp_bits(self) -> u8 {
        match self {
            TimestampPrecision::Millisecond => 41,
            TimestampPrecision::Second => 31,
        }
    }

    /// Width of the sequence field.
    pub open spec fn spec_sequence_bits(self) -> u8 {
        match self {
            TimestampPrecision::Millisecond => 12,
            TimestampPrecision::Second => 22,
        }
    }

    /// Milliseconds in one timestamp unit.
    pub open spec fn spec_divisor_millis(self) -> u64 {
        match self {
            TimestampPrecision::Millisecond => 1,
            TimestampPrecision::Second => 1000,
        }
    }

    /// Decodes a precision from a one-bit value.
    pub fn from_bit(bit: u64) -> (precision: Self)
        ensures
            precision == Self::of_bit(bit),
    {
        if bit == 0 {
            TimestampPrecision::Millisecond
        } else {
            TimestampPrecision::Second
        }
    }

    /// Returns the one-bit ordinal used by the Qubit layout.
    pub fn ordinal(self) -> (ordinal: u64)
        ensures
            ordinal == self.bit(),
    {
        match self {
            TimestampPrecision::Millisecond => 0,
            TimestampPrecision::Second => 1,
        }
    }

    /// Returns the width of the timestamp field.
    pub fn timestamp_bits(self) -> (bits: u8)
        ensures
            bits == self.spec_timestamp_bits(),
    {
        match self {
            TimestampPrecision::Millisecond => 41,
            TimestampPrecision::Second => 31,
        }
    }

    /// Returns the width of the sequence field.
    pub fn sequence_bits(self) -> (bits: u8)
        ensures
            bits == self.spec_sequence_bits(),
    {
        match self {
            TimestampPrecision::Millisecond => 12,
            TimestampPrecision::Second => 22,
        }
    }

    /// Returns the number of milliseconds in one timestamp unit.
    pub fn divisor_millis(self) -> (millis: u64)
        ensures
            millis == self.spec_divisor_millis(),
    {
        match self {
            TimestampPrecision::Millisecond => 1,
            TimestampPrecision::Second => 1000,
        }
    }

    /// Returns the pause, in milliseconds, between polls while waiting for
    /// the next time slice: one millisecond or half a second.
    pub fn wait_duration_millis(self) -> (millis: u64)
        ensures
            millis == (match self {
                TimestampPrecision::Millisecond => 1u64,
                TimestampPrecision::Second => 500u64,
            }),
    {
        match self {
            TimestampPrecision::Millisecond => 1,
            TimestampPrecision::Second => 500,
        }
    }
}

/// Decoding the ordinal of a precision gives the precision back, and every
/// precision's ordinal is a single bit.
pub proof fn lemma_precision_bit_round_trip(precision: TimestampPrecision)
    ensures
        TimestampPrecision::of_bit(precision.bit()) == precision,
        precision.bit() <= 1,
{
}

/// The header, timestamp, host and sequence fields of either precision fill
/// exactly sixty-four bits.
pub proof fn lemma_precision_fills_word(precision: TimestampPrecision)
    ensures
        2 + precision.spec_timestamp_bits() + 9 + precision.spec_sequence_bits() == 64,
{
}

} // verus!
