//! Qubit snowflake ID bit builder: composes IDs and extracts their fields
//! under a fixed layout.

use vstd::prelude::*;

use super::bit_reversal::reverse_bits_below;
use super::constants::{HOST_BITS, HOST_MAX, MODE_BITS, PRECISION_BITS};
use super::qubit_bits::{
    decoded_mode, decoded_precision, header_bits, lemma_qubit_decode_compose, host_shift_of, max_sequence_of, max_timestamp_of, qubit_id, qubit_parts_fit,
    stored_timestamp, timestamp_shift_of,
};
use crate::id_error::IdError;
use crate::id_mode::IdMode;
use crate::timestamp_precision::TimestampPrecision;

verus! {

/// Builds and extracts Qubit snowflake IDs:
///
/// ```text
/// [mode:1][precision:1][timestamp][host:9][sequence]
/// ```
///
/// The fixed high-bit header keeps mode and precision readable without
/// knowing the timestamp and sequence widths first.
#[derive(Debug, Clone, Copy, PartialEq, Eq, Structural)]
pub struct QubitSnowflakeBuilder {
    /// ID ordering mode encoded in the high-bit header.
    mode: IdMode,
    /// Timestamp precision encoded in the high-bit header.
    precision: TimestampPrecision,
    /// Host identifier encoded in composed IDs.
    host: u64,
    /// Number of low bits below the mode field.
    mode_shift: u8,
    /// Number of low bits below the timestamp field.
    timestamp_shift: u8,
    /// Number of low bits below the precision field.
    precision_shift: u8,
    /// Number of low bits below the host field.
    host_shift: u8,
    /// Width of the timestamp field.
    timestamp_bits: u8,
    /// Maximum timestamp representable by the layout.
    max_timestamp: u64,
    /// Maximum sequence representable by the layout.
    max_sequence: u64,
    /// Precomputed mode, precision, and host bit fields.
    fixed_data: u64,
}

impl QubitSnowflakeBuilder {
    /// The encoded ordering mode.
    pub closed spec fn spec_mode(&self) -> IdMode {
        self.mode
    }

    /// The encoded timestamp precision.
    pub closed spec fn spec_precision(&self) -> TimestampPrecision {
        self.precision
    }

    /// The encoded host identifier.
    pub closed spec fn spec_host(&self) -> u64 {
        self.host
    }

    /// Every derived field agrees with the mode, precision and host.
    #[verifier::type_invariant]
    pub closed spec fn wf(&self) -> bool {
        &&& self.host <= 511
        &&& self.timestamp_bits == self.precision.spec_timestamp_bits()
        &&& self.mode_shift == 63
        &&& self.precision_shift == 62
        &&& self.timestamp_shift == timestamp_shift_of(self.precision)
        &&& self.host_shift == host_shift_of(self.precision)
        &&& self.max_timestamp == max_timestamp_of(self.precision)
        &&& self.max_sequence == max_sequence_of(self.precision)
        &&& self.fixed_data == header_bits(self.precision_free_mode_bit(), self.precision, self.host)
    }

    /// The mode bit of the header.
    closed spec fn precision_free_mode_bit(&self) -> u64 {
        self.mode.bit()
    }

    /// What building an ID from `timestamp` and `sequence` returns: the Qubit ID of the
    /// parts when both fit, otherwise the overflow of the first part that
    /// does not.
    pub open spec fn spec_build(&self, timestamp: u64, sequence: u64) -> Result<
        u64,
        IdError,
    > {
        if timestamp > max_timestamp_of(self.spec_precision()) {
            Err(
                IdError::TimestampOverflow {
                    timestamp,
                    max: max_timestamp_of(self.spec_precision()),
                },
            )
        } else if sequence > max_sequence_of(self.spec_precision()) {
            Err(
                IdError::SequenceOverflow {
                    sequence,
                    max: max_sequence_of(self.spec_precision()),
                },
            )
        } else {
            Ok(
                qubit_id(
                    self.spec_mode(),
                    self.spec_precision(),
                    self.spec_host(),
                    timestamp,
                    sequence,
                ),
            )
        }
    }

    /// Creates a Qubit snowflake layout.
    ///
    /// # Errors
    ///
    /// Returns [`IdError::HostOutOfRange`] when `host` does not fit
    /// in the 9-bit host field.
    pub fn new(mode: IdMode, precision: TimestampPrecision, host: u64) -> (layout: Result<
        Self,
        IdError,
    >)
        ensures
            host > HOST_MAX ==> layout == Err::<Self, IdError>(
                IdError::HostOutOfRange { host, max: HOST_MAX },
            ),
            host <= HOST_MAX ==> (layout matches Ok(l) && l.wf() && l.spec_mode() == mode
                && l.spec_precision() == precision && l.spec_host() == host),
    {
        if host > HOST_MAX {
            return Err(IdError::HostOutOfRange { host, max: HOST_MAX });
        }
        Ok(Self::new_unchecked(mode, precision, host))
    }

    /// Creates a layout after the caller has validated the host field.
    fn new_unchecked(mode: IdMode, precision: TimestampPrecision, host: u64) -> (layout: Self)
        requires
            host <= HOST_MAX,
        ensures
            layout.wf(),
            layout.spec_mode() == mode,
            layout.spec_precision() == precision,
            layout.spec_host() == host,
    {
        let timestamp_bits = precision.timestamp_bits();
        let sequence_bits = precision.sequence_bits();
        proof {
            assert(1u64 << 41u8 == 0x200_0000_0000u64) by (bit_vector);
            assert(1u64 << 31u8 == 0x8000_0000u64) by (bit_vector);
            assert(1u64 << 12u8 == 0x1000u64) by (bit_vector);
            assert(1u64 << 22u8 == 0x40_0000u64) by (bit_vector);
        }
        let max_timestamp = (1u64 << timestamp_bits) - 1;
        let max_sequence = (1u64 << sequence_bits) - 1;
        let mode_shift = u64::BITS as u8 - MODE_BITS;
        let precision_shift = mode_shift - PRECISION_BITS;
        let timestamp_shift = HOST_BITS + sequence_bits;
        let host_shift = sequence_bits;
        let fixed_data = (mode.ordinal() << mode_shift) | (precision.ordinal() << precision_shift)
            | (host << host_shift);
        QubitSnowflakeBuilder {
            mode,
            precision,
            host,
            mode_shift,
            timestamp_shift,
            precision_shift,
            host_shift,
            timestamp_bits,
            max_timestamp,
            max_sequence,
            fixed_data,
        }
    }

    /// Returns the encoded mode.
    pub fn mode(&self) -> (mode: IdMode)
        ensures
            mode == self.spec_mode(),
    {
        self.mode
    }

    /// Returns the encoded timestamp precision.
    pub fn precision(&self) -> (precision: TimestampPrecision)
        ensures
            precision == self.spec_precision(),
    {
        self.precision
    }

    /// Returns the encoded host identifier.
    pub fn host(&self) -> (host: u64)
        ensures
            host == self.spec_host(),
    {
        self.host
    }

    /// Returns the maximum representable timestamp.
    pub fn max_timestamp(&self) -> (max: u64)
        ensures
            max == max_timestamp_of(self.spec_precision()),
    {
        proof {
            use_type_invariant(self);
        }
        self.max_timestamp
    }

    /// Returns the maximum representable sequence number.
    pub fn max_sequence(&self) -> (max: u64)
        ensures
            max == max_sequence_of(self.spec_precision()),
    {
        proof {
            use_type_invariant(self);
        }
        self.max_sequence
    }

    /// Builds an ID from timestamp and sequence parts.
    ///
    /// # Errors
    ///
    /// Returns [`IdError::TimestampOverflow`] or
    /// [`IdError::SequenceOverflow`] when a part does not fit.
    pub fn build(&self, timestamp: u64, sequence: u64) -> (id: Result<u64, IdError>)
        ensures
            id == self.spec_build(timestamp, sequence),
    {
        proof {
            use_type_invariant(self);
        }
        if timestamp > self.max_timestamp {
            return Err(
                IdError::TimestampOverflow { timestamp, max: self.max_timestamp },
            );
        }
        if sequence > self.max_sequence {
            return Err(IdError::SequenceOverflow { sequence, max: self.max_sequence });
        }
        let stored_timestamp = Self::transform_timestamp(
            self.mode,
            self.timestamp_bits,
            timestamp,
        );
        Ok((stored_timestamp << self.timestamp_shift) | self.fixed_data | sequence)
    }

    /// Extracts the encoded ID ordering mode.
    pub fn extract_mode(&self, id: u64) -> (mode: IdMode)
        ensures
            mode == decoded_mode(id),
    {
        proof {
            use_type_invariant(self);
        }
        proof {
            assert(1u64 << 1u8 == 2u64) by (bit_vector);
            assert((id >> 63u8) & 1u64 == id >> 63u64) by (bit_vector);
        }
        let bit = (id >> self.mode_shift) & ((1u64 << MODE_BITS) - 1);
        IdMode::from_bit(bit)
    }

    /// Extracts the encoded timestamp under this builder's precision,
    /// undoing this builder's mode.
    pub fn extract_timestamp(&self, id: u64) -> (timestamp: u64)
        ensures
            timestamp == stored_timestamp(
                self.spec_mode(),
                self.spec_precision().spec_timestamp_bits(),
                (id >> timestamp_shift_of(self.spec_precision())) & max_timestamp_of(
                    self.spec_precision(),
                ),
            ),
    {
        proof {
            use_type_invariant(self);
        }
        let timestamp = (id >> self.timestamp_shift) & self.max_timestamp;
        Self::transform_timestamp(self.mode, self.timestamp_bits, timestamp)
    }

    /// Extracts the encoded timestamp precision.
    pub fn extract_precision(&self, id: u64) -> (precision: TimestampPrecision)
        ensures
            precision == decoded_precision(id),
    {
        proof {
            use_type_invariant(self);
        }
        proof {
            assert(1u64 << 1u8 == 2u64) by (bit_vector);
        }
        let bit = (id >> self.precision_shift) & ((1u64 << PRECISION_BITS) - 1);
        TimestampPrecision::from_bit(bit)
    }

    /// Extracts the encoded host identifier under this builder's precision.
    pub fn extract_host(&self, id: u64) -> (host: u64)
        ensures
            host == (id >> host_shift_of(self.spec_precision())) & 511,
    {
        proof {
            use_type_invariant(self);
        }
        proof {
            assert(1u64 << 9u8 == 512u64) by (bit_vector);
        }
        (id >> self.host_shift) & ((1u64 << HOST_BITS) - 1)
    }

    /// Extracts the encoded sequence under this builder's precision.
    pub fn extract_sequence(&self, id: u64) -> (sequence: u64)
        ensures
            sequence == id & max_sequence_of(self.spec_precision()),
    {
        proof {
            use_type_invariant(self);
        }
        id & self.max_sequence
    }

    /// Applies the reversible timestamp transform for the configured mode.
    fn transform_timestamp(mode: IdMode, timestamp_bits: u8, timestamp: u64) -> (stored: u64)
        requires
            timestamp_bits <= 64,
        ensures
            stored == stored_timestamp(mode, timestamp_bits, timestamp),
    {
        match mode {
            IdMode::Sequential => timestamp,
            IdMode::Spread => reverse_bits_below(timestamp, timestamp_bits),
        }
    }
}

impl Default for QubitSnowflakeBuilder {
    /// Creates the sequential, second-precision layout for host zero.
    fn default() -> (layout: Self)
        ensures
            layout.wf(),
            layout.spec_mode() == IdMode::Sequential,
            layout.spec_precision() == TimestampPrecision::Second,
            layout.spec_host() == 0,
    {
        Self::new_unchecked(IdMode::Sequential, TimestampPrecision::Second, 0)
    }
}

/// A well-formed builder's host fits the host field.
pub proof fn lemma_builder_host_fits(builder: QubitSnowflakeBuilder)
    requires
        builder.wf(),
    ensures
        builder.spec_host() <= HOST_MAX,
{
}

/// Extracting the fields of an ID that a builder built returns the parts it
/// was built from.
pub proof fn lemma_builder_extract_build(
    builder: QubitSnowflakeBuilder,
    timestamp: u64,
    sequence: u64,
    id: u64,
)
    requires
        builder.wf(),
        builder.spec_build(timestamp, sequence) == Ok::<u64, IdError>(id),
    ensures
        decoded_mode(id) == builder.spec_mode(),
        decoded_precision(id) == builder.spec_precision(),
        stored_timestamp(
            builder.spec_mode(),
            builder.spec_precision().spec_timestamp_bits(),
            (id >> timestamp_shift_of(builder.spec_precision())) & max_timestamp_of(
                builder.spec_precision(),
            ),
        ) == timestamp,
        (id >> host_shift_of(builder.spec_precision())) & 511 == builder.spec_host(),
        id & max_sequence_of(builder.spec_precision()) == sequence,
{
    lemma_qubit_decode_compose(
        builder.spec_mode(),
        builder.spec_precision(),
        builder.spec_host(),
        timestamp,
        sequence,
    );
}

} // verus!
