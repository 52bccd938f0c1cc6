//! Qubit snowflake ID bit layout.

use vstd::prelude::*;

use super::super::bit_reversal::reverse_bits_below;
use super::super::constants::{HOST_BITS, HOST_MAX, MODE_BITS, PRECISION_BITS};
use super::super::internal::expiration_time::{expiration_time, spec_expiration_time};
use super::super::internal::snowflake_layout_spec::SnowflakeLayoutSpec;
use super::super::qubit_bits::{
    decoded_host, decoded_mode, decoded_precision, decoded_sequence, decoded_timestamp,
    header_bits, lemma_qubit_id_injective, lemma_sequential_qubit_id_increasing, host_shift_of, max_sequence_of, max_timestamp_of, qubit_id, qubit_parts_fit,
    stored_timestamp, timestamp_shift_of,
};
use super::super::qubit_snowflake_parts::QubitSnowflakeParts;
use crate::id::Id;
use crate::id_generation_error::IdGenerationError;
use crate::id_mode::IdMode;
use crate::timestamp_precision::TimestampPrecision;
use crate::wall_time::{is_wall_time, NANOS_PER_MILLISECOND};

verus! {

/// Immutable Qubit snowflake bit layout used to compose IDs:
///
/// ```text
/// [mode:1][precision:1][timestamp][host:9][sequence]
/// ```
///
/// Composing and decoding are stateless bit operations; they do not allocate
/// an ID and provide no uniqueness guarantee. [`IdMode::Spread`] IDs always
/// set bit 63 and therefore exceed `i64::MAX`.
#[derive(Debug, Clone, Copy, PartialEq, Eq, Structural)]
pub struct SnowflakeLayout {
    /// ID ordering mode encoded in the high-bit header.
    mode: IdMode,
    /// Timestamp precision encoded in the high-bit header.
    precision: TimestampPrecision,
    /// Host identifier encoded in composed IDs.
    host: u64,
    /// Number of low bits below the timestamp field.
    timestamp_shift: u8,
    /// Number of low bits below the host field.
    host_shift: u8,
    /// Width of the timestamp field.
    timestamp_bits: u8,
    /// Maximum timestamp representable by the layout.
    max_timestamp: u64,
    /// Maximum sequence representable by the layout.
    max_sequence: u64,
    /// Precomputed mode, precision, and host bit fields.
    fixed_data: u64,
}

impl SnowflakeLayout {
    /// The encoded ordering mode.
    pub closed spec fn spec_mode(&self) -> IdMode {
        self.mode
    }

    /// The encoded timestamp precision.
    pub closed spec fn spec_precision(&self) -> TimestampPrecision {
        self.precision
    }

    /// The encoded host identifier.
    pub closed spec fn spec_host(&self) -> u64 {
        self.host
    }

    /// Every derived field agrees with the mode, precision and host.
    #[verifier::type_invariant]
    pub closed spec fn wf(&self) -> bool {
        &&& self.host <= 511
        &&& self.timestamp_bits == self.precision.spec_timestamp_bits()
        &&& self.timestamp_shift == timestamp_shift_of(self.precision)
        &&& self.host_shift == host_shift_of(self.precision)
        &&& self.max_timestamp == max_timestamp_of(self.precision)
        &&& self.max_sequence == max_sequence_of(self.precision)
        &&& self.fixed_data == header_bits(self.precision_free_mode_bit(), self.precision, self.host)
    }

    /// The mode bit of the header.
    closed spec fn precision_free_mode_bit(&self) -> u64 {
        self.mode.bit()
    }

    /// What composing `timestamp` and `sequence` returns: the Qubit ID of the
    /// parts when both fit, otherwise the overflow of the first part that
    /// does not.
    pub open spec fn spec_compose_raw(&self, timestamp: u64, sequence: u64) -> Result<
        u64,
        IdGenerationError,
    > {
        if timestamp > max_timestamp_of(self.spec_precision()) {
            Err(
                IdGenerationError::TimestampOverflow {
                    timestamp,
                    max: max_timestamp_of(self.spec_precision()),
                },
            )
        } else if sequence > max_sequence_of(self.spec_precision()) {
            Err(
                IdGenerationError::SequenceOverflow {
                    sequence,
                    max: max_sequence_of(self.spec_precision()),
                },
            )
        } else {
            Ok(
                qubit_id(
                    self.spec_mode(),
                    self.spec_precision(),
                    self.spec_host(),
                    timestamp,
                    sequence,
                ),
            )
        }
    }

    /// Creates a Qubit snowflake layout.
    ///
    /// # Errors
    ///
    /// Returns [`IdGenerationError::HostOutOfRange`] when `host` does not fit
    /// in the 9-bit host field.
    pub fn new(mode: IdMode, precision: TimestampPrecision, host: u64) -> (layout: Result<
        Self,
        IdGenerationError,
    >)
        ensures
            host > HOST_MAX ==> layout == Err::<Self, IdGenerationError>(
                IdGenerationError::HostOutOfRange { host, max: HOST_MAX },
            ),
            host <= HOST_MAX ==> (layout matches Ok(l) && l.wf() && l.spec_mode() == mode
                && l.spec_precision() == precision && l.spec_host() == host),
    {
        if host > HOST_MAX {
            return Err(IdGenerationError::HostOutOfRange { host, max: HOST_MAX });
        }
        Ok(Self::new_unchecked(mode, precision, host))
    }

    /// Creates a layout after the caller has validated the host field.
    fn new_unchecked(mode: IdMode, precision: TimestampPrecision, host: u64) -> (layout: Self)
        requires
            host <= HOST_MAX,
        ensures
            layout.wf(),
            layout.spec_mode() == mode,
            layout.spec_precision() == precision,
            layout.spec_host() == host,
    {
        let timestamp_bits = precision.timestamp_bits();
        let sequence_bits = precision.sequence_bits();
        proof {
            assert(1u64 << 41u8 == 0x200_0000_0000u64) by (bit_vector);
            assert(1u64 << 31u8 == 0x8000_0000u64) by (bit_vector);
            assert(1u64 << 12u8 == 0x1000u64) by (bit_vector);
            assert(1u64 << 22u8 == 0x40_0000u64) by (bit_vector);
        }
        let max_timestamp = (1u64 << timestamp_bits) - 1;
        let max_sequence = (1u64 << sequence_bits) - 1;
        let mode_shift = u64::BITS as u8 - MODE_BITS;
        let precision_shift = mode_shift - PRECISION_BITS;
        let timestamp_shift = HOST_BITS + sequence_bits;
        let host_shift = sequence_bits;
        let fixed_data = (mode.ordinal() << mode_shift) | (precision.ordinal() << precision_shift)
            | (host << host_shift);
        SnowflakeLayout {
            mode,
            precision,
            host,
            timestamp_shift,
            host_shift,
            timestamp_bits,
            max_timestamp,
            max_sequence,
            fixed_data,
        }
    }

    /// Returns the encoded mode.
    pub fn mode(&self) -> (mode: IdMode)
        ensures
            mode == self.spec_mode(),
    {
        self.mode
    }

    /// Returns the encoded timestamp precision.
    pub fn precision(&self) -> (precision: TimestampPrecision)
        ensures
            precision == self.spec_precision(),
    {
        self.precision
    }

    /// Returns the encoded host identifier.
    pub fn host(&self) -> (host: u64)
        ensures
            host == self.spec_host(),
    {
        self.host
    }

    /// Returns the maximum representable timestamp.
    pub fn max_timestamp(&self) -> (max: u64)
        ensures
            max == max_timestamp_of(self.spec_precision()),
    {
        proof {
            use_type_invariant(self);
        }
        self.max_timestamp
    }

    /// Returns the maximum representable sequence number.
    pub fn max_sequence(&self) -> (max: u64)
        ensures
            max == max_sequence_of(self.spec_precision()),
    {
        proof {
            use_type_invariant(self);
        }
        self.max_sequence
    }

    /// Returns the nanoseconds represented by one timestamp unit.
    pub fn time_unit(&self) -> (nanos: u128)
        ensures
            nanos == self.spec_precision().spec_divisor_millis() * NANOS_PER_MILLISECOND,
    {
        self.precision.divisor_millis() as u128 * NANOS_PER_MILLISECOND
    }

    /// Calculates this layout's exclusive expiration for an epoch: the first
    /// instant after the timestamps `0..=max_timestamp` that start at
    /// `epoch`.
    ///
    /// # Errors
    ///
    /// Returns [`IdGenerationError::ExpirationTimeOverflow`] when the
    /// boundary cannot be represented.
    pub fn expires_at(&self, epoch: i128) -> (expires_at: Result<i128, IdGenerationError>)
        requires
            is_wall_time(epoch as int),
        ensures
            expires_at == spec_expiration_time(
                epoch,
                (self.spec_precision().spec_divisor_millis() * NANOS_PER_MILLISECOND) as u128,
                max_timestamp_of(self.spec_precision()),
            ),
    {
        proof {
            use_type_invariant(self);
        }
        expiration_time(epoch, self.time_unit(), self.max_timestamp)
    }

    /// Composes an ID from timestamp and sequence parts.
    ///
    /// This method is stateless and does not guarantee uniqueness.
    ///
    /// # Errors
    ///
    /// Returns [`IdGenerationError::TimestampOverflow`] or
    /// [`IdGenerationError::SequenceOverflow`] when a part does not fit.
    pub fn compose_raw(&self, timestamp: u64, sequence: u64) -> (id: Result<u64, IdGenerationError>)
        ensures
            id == self.spec_compose_raw(timestamp, sequence),
    {
        proof {
            use_type_invariant(self);
        }
        if timestamp > self.max_timestamp {
            return Err(
                IdGenerationError::TimestampOverflow { timestamp, max: self.max_timestamp },
            );
        }
        if sequence > self.max_sequence {
            return Err(IdGenerationError::SequenceOverflow { sequence, max: self.max_sequence });
        }
        let stored_timestamp = Self::transform_timestamp(
            self.mode,
            self.timestamp_bits,
            timestamp,
        );
        Ok((stored_timestamp << self.timestamp_shift) | self.fixed_data | sequence)
    }

    /// Decodes a Qubit snowflake ID without a preconfigured layout.
    ///
    /// Mode and precision are read from the fixed high-bit header before the
    /// remaining field widths are derived, so every value decodes.
    pub fn decode(id: Id) -> (parts: QubitSnowflakeParts)
        ensures
            parts.spec_mode() == decoded_mode(id@),
            parts.spec_precision() == decoded_precision(id@),
            parts.spec_timestamp() == decoded_timestamp(id@),
            parts.spec_host() == decoded_host(id@),
            parts.spec_sequence() == decoded_sequence(id@),
    {
        Self::decode_raw(id.value())
    }

    /// Decodes a Qubit snowflake bit pattern without a preconfigured layout.
    pub fn decode_raw(id: u64) -> (parts: QubitSnowflakeParts)
        ensures
            parts.spec_mode() == decoded_mode(id),
            parts.spec_precision() == decoded_precision(id),
            parts.spec_timestamp() == decoded_timestamp(id),
            parts.spec_host() == decoded_host(id),
            parts.spec_sequence() == decoded_sequence(id),
    {
        let mode_shift = u64::BITS as u8 - MODE_BITS;
        let precision_shift = mode_shift - PRECISION_BITS;
        proof {
            assert((id >> 63u8) & 1 == id >> 63u64) by (bit_vector);
            assert(1u64 << 9u8 == 512u64) by (bit_vector);
        }
        let mode = IdMode::from_bit((id >> mode_shift) & 1);
        let precision = TimestampPrecision::from_bit((id >> precision_shift) & 1);
        let layout = Self::new_unchecked(mode, precision, 0);
        let stored_timestamp = (id >> layout.timestamp_shift) & layout.max_timestamp;
        let timestamp = Self::transform_timestamp(mode, layout.timestamp_bits, stored_timestamp);
        let host = (id >> layout.host_shift) & ((1u64 << HOST_BITS) - 1);
        let sequence = id & layout.max_sequence;
        QubitSnowflakeParts::new(mode, precision, timestamp, host, sequence)
    }

    /// Composes an ID from timestamp and sequence parts.
    ///
    /// # Errors
    ///
    /// Returns the same overflow errors as [`Self::compose_raw`].
    pub fn compose(&self, timestamp: u64, sequence: u64) -> (id: Result<Id, IdGenerationError>)
        ensures
            match self.spec_compose_raw(timestamp, sequence) {
                Ok(raw) => id matches Ok(id) && id@ == raw,
                Err(error) => id == Err::<Id, IdGenerationError>(error),
            },
    {
        proof {
            use_type_invariant(self);
        }
        match self.compose_raw(timestamp, sequence) {
            Ok(raw) => Ok(Id::new(raw)),
            Err(error) => Err(error),
        }
    }

    /// Applies the reversible timestamp transform for the configured mode.
    fn transform_timestamp(mode: IdMode, timestamp_bits: u8, timestamp: u64) -> (stored: u64)
        requires
            timestamp_bits <= 64,
        ensures
            stored == stored_timestamp(mode, timestamp_bits, timestamp),
    {
        match mode {
            IdMode::Sequential => timestamp,
            IdMode::Spread => reverse_bits_below(timestamp, timestamp_bits),
        }
    }
}

impl Default for SnowflakeLayout {
    /// Creates the sequential, second-precision layout for host zero.
    fn default() -> (layout: Self)
        ensures
            layout.wf(),
            layout.spec_mode() == IdMode::Sequential,
            layout.spec_precision() == TimestampPrecision::Second,
            layout.spec_host() == 0,
    {
        Self::new_unchecked(IdMode::Sequential, TimestampPrecision::Second, 0)
    }
}

impl SnowflakeLayoutSpec for SnowflakeLayout {
    open spec fn layout_wf(&self) -> bool {
        self.wf()
    }

    open spec fn spec_time_unit(&self) -> u128 {
        (self.spec_precision().spec_divisor_millis() * NANOS_PER_MILLISECOND) as u128
    }

    open spec fn spec_max_timestamp(&self) -> u64 {
        max_timestamp_of(self.spec_precision())
    }

    open spec fn spec_max_sequence(&self) -> u64 {
        max_sequence_of(self.spec_precision())
    }

    open spec fn spec_id(&self, timestamp: u64, sequence: u64) -> u64 {
        qubit_id(self.spec_mode(), self.spec_precision(), self.spec_host(), timestamp, sequence)
    }

    open spec fn spec_compose(&self, timestamp: u64, sequence: u64) -> Result<u64, IdGenerationError> {
        self.spec_compose_raw(timestamp, sequence)
    }

    proof fn lemma_layout_facts(&self, timestamp: u64, sequence: u64) {
    }

    proof fn lemma_id_injective(
        &self,
        timestamp1: u64,
        sequence1: u64,
        timestamp2: u64,
        sequence2: u64,
    ) {
        lemma_qubit_id_injective(
            self.spec_mode(),
            self.spec_precision(),
            self.spec_host(),
            timestamp1,
            sequence1,
            timestamp2,
            sequence2,
        );
    }

    /// Sequential Qubit layouts are time ordered; spread ones are not.
    open spec fn spec_time_ordered(&self) -> bool {
        self.spec_mode() == IdMode::Sequential
    }

    proof fn lemma_id_increasing(
        &self,
        timestamp1: u64,
        sequence1: u64,
        timestamp2: u64,
        sequence2: u64,
    ) {
        lemma_sequential_qubit_id_increasing(
            self.spec_precision(),
            self.spec_host(),
            timestamp1,
            sequence1,
            timestamp2,
            sequence2,
        );
    }

    /// Returns the duration of one Qubit timestamp unit.
    fn unit_nanos(&self) -> (nanos: u128) {
        self.time_unit()
    }

    /// Returns the greatest Qubit timestamp accepted by this layout.
    fn timestamp_limit(&self) -> (max: u64) {
        self.max_timestamp()
    }

    /// Returns the greatest Qubit sequence accepted by this layout.
    fn sequence_limit(&self) -> (max: u64) {
        self.max_sequence()
    }

    /// Composes a Qubit ID from a timestamp and sequence.
    fn compose_parts(&self, timestamp: u64, sequence: u64) -> (id: Result<u64, IdGenerationError>) {
        self.compose_raw(timestamp, sequence)
    }
}

} // verus!
