//! Stateless classic Snowflake bit layout.

use vstd::prelude::*;

use super::super::internal::expiration_time::{expiration_time, spec_expiration_time};
use super::super::internal::snowflake_layout_spec::SnowflakeLayoutSpec;
use super::classical_snowflake_parts::ClassicalSnowflakeParts;
use crate::id::Id;
use crate::id_generation_error::IdGenerationError;
use crate::wall_time::{is_wall_time, NANOS_PER_MILLISECOND};

verus! {

/// Number of bits used for the timestamp field.
const TIMESTAMP_BITS: u8 = 41;

/// Number of bits used for the node field.
const NODE_BITS: u8 = 10;

/// Number of bits used for the sequence field.
const SEQUENCE_BITS: u8 = 12;

/// Maximum node identifier accepted by the layout.
const MAX_NODE_ID: u64 = 1023;

/// Greatest classic timestamp: 41 bits set.
pub open spec fn classical_max_timestamp() -> u64 {
    0x1ff_ffff_ffff
}

/// Greatest classic sequence: 12 bits set.
pub open spec fn classical_max_sequence() -> u64 {
    0xfff
}

/// The classic ID of a timestamp, node and sequence.
pub open spec fn classical_id(timestamp: u64, node_id: u64, sequence: u64) -> u64 {
    (timestamp << 22u64) | (node_id << 12u64) | sequence
}

/// Whether the parts fit their fields.
pub open spec fn classical_parts_fit(timestamp: u64, node_id: u64, sequence: u64) -> bool {
    &&& timestamp <= classical_max_timestamp()
    &&& node_id <= 1023
    &&& sequence <= classical_max_sequence()
}

/// Timestamp field of a classic ID: every bit above the node field.
pub open spec fn classical_decoded_timestamp(id: u64) -> u64 {
    id >> 22u64
}

/// Node field of a classic ID.
pub open spec fn classical_decoded_node_id(id: u64) -> u64 {
    (id >> 12u64) & 1023
}

/// Sequence field of a classic ID.
pub open spec fn classical_decoded_sequence(id: u64) -> u64 {
    id & 0xfff
}

/// Immutable classic 41/10/12 Snowflake bit layout.
///
/// The layout owns the node identifier used by [`Self::compose`]. Composing
/// and decoding are stateless bit operations and provide no uniqueness
/// guarantee.
#[derive(Debug, Clone, Copy, PartialEq, Eq, Structural)]
pub struct ClassicalSnowflakeLayout {
    /// Node identifier encoded by composed IDs.
    node_id: u64,
}

impl ClassicalSnowflakeLayout {
    /// The node identifier of the layout.
    pub closed spec fn spec_node_id(&self) -> u64 {
        self.node_id
    }

    /// The node identifier fits its field.
    pub closed spec fn wf(&self) -> bool {
        self.node_id <= MAX_NODE_ID
    }

    /// What composing `timestamp` and `sequence` returns: the classic ID of
    /// the parts when both fit, otherwise the overflow of the first part
    /// that does not.
    pub open spec fn spec_compose_raw(&self, timestamp: u64, sequence: u64) -> Result<
        u64,
        IdGenerationError,
    > {
        if timestamp > classical_max_timestamp() {
            Err(
                IdGenerationError::TimestampOverflow {
                    timestamp,
                    max: classical_max_timestamp(),
                },
            )
        } else if sequence > classical_max_sequence() {
            Err(IdGenerationError::SequenceOverflow { sequence, max: classical_max_sequence() })
        } else {
            Ok(classical_id(timestamp, self.spec_node_id(), sequence))
        }
    }

    /// Creates a classic Snowflake layout for `node_id`.
    ///
    /// # Errors
    ///
    /// Returns [`IdGenerationError::NodeOutOfRange`] when `node_id` does not
    /// fit the 10-bit node field.
    pub fn new(node_id: u64) -> (layout: Result<Self, IdGenerationError>)
        ensures
            node_id > 1023 ==> layout == Err::<Self, IdGenerationError>(
                IdGenerationError::NodeOutOfRange { node_id, max: 1023 },
            ),
            node_id <= 1023 ==> (layout matches Ok(l) && l.wf() && l.spec_node_id() == node_id),
    {
        if node_id > MAX_NODE_ID {
            return Err(IdGenerationError::NodeOutOfRange { node_id, max: MAX_NODE_ID });
        }
        Ok(ClassicalSnowflakeLayout { node_id })
    }

    /// Returns the configured node identifier.
    pub fn node_id(&self) -> (node_id: u64)
        ensures
            node_id == self.spec_node_id(),
    {
        self.node_id
    }

    /// Returns the maximum representable timestamp: milliseconds since the
    /// generator epoch.
    pub fn max_timestamp(&self) -> (max: u64)
        ensures
            max == classical_max_timestamp(),
    {
        proof {
            assert((1u64 << 41u8) - 1 == 0x1ff_ffff_ffffu64) by (bit_vector);
        }
        (1u64 << TIMESTAMP_BITS) - 1
    }

    /// Returns the maximum representable sequence inside one millisecond.
    pub fn max_sequence(&self) -> (max: u64)
        ensures
            max == classical_max_sequence(),
    {
        proof {
            assert((1u64 << 12u8) - 1 == 0xfffu64) by (bit_vector);
        }
        (1u64 << SEQUENCE_BITS) - 1
    }

    /// Returns the nanoseconds represented by one timestamp unit: one
    /// millisecond.
    pub fn time_unit(&self) -> (nanos: u128)
        ensures
            nanos == NANOS_PER_MILLISECOND,
    {
        NANOS_PER_MILLISECOND
    }

    /// Calculates this layout's exclusive expiration for an epoch: the first
    /// instant after the timestamps `0..=max_timestamp` that start at
    /// `epoch`.
    ///
    /// # Errors
    ///
    /// Returns [`IdGenerationError::ExpirationTimeOverflow`] when the
    /// boundary cannot be represented.
    pub fn expires_at(&self, epoch: i128) -> (expires_at: Result<i128, IdGenerationError>)
        requires
            is_wall_time(epoch as int),
        ensures
            expires_at == spec_expiration_time(
                epoch,
                NANOS_PER_MILLISECOND,
                classical_max_timestamp(),
            ),
    {
        expiration_time(epoch, NANOS_PER_MILLISECOND, self.max_timestamp())
    }

    /// Composes a classic Snowflake ID from timestamp and sequence parts.
    ///
    /// Repeating the same layout and parts repeats the ID, so this method
    /// does not provide a uniqueness guarantee.
    ///
    /// # Errors
    ///
    /// Returns [`IdGenerationError::TimestampOverflow`] or
    /// [`IdGenerationError::SequenceOverflow`] when a part exceeds its field.
    pub fn compose_raw(&self, timestamp: u64, sequence: u64) -> (id: Result<u64, IdGenerationError>)
        ensures
            id == self.spec_compose_raw(timestamp, sequence),
    {
        if timestamp > self.max_timestamp() {
            return Err(
                IdGenerationError::TimestampOverflow { timestamp, max: self.max_timestamp() },
            );
        }
        if sequence > self.max_sequence() {
            return Err(IdGenerationError::SequenceOverflow { sequence, max: self.max_sequence() });
        }
        Ok((timestamp << (NODE_BITS + SEQUENCE_BITS)) | (self.node_id << SEQUENCE_BITS) | sequence)
    }

    /// Decodes a classic Snowflake ID.
    ///
    /// Decoding only extracts fields from the fixed layout. It does not
    /// authenticate the value or prove that a generator produced it.
    pub fn decode(id: Id) -> (parts: ClassicalSnowflakeParts)
        ensures
            parts.spec_timestamp() == classical_decoded_timestamp(id@),
            parts.spec_node_id() == classical_decoded_node_id(id@),
            parts.spec_sequence() == classical_decoded_sequence(id@),
    {
        Self::decode_raw(id.value())
    }

    /// Decodes a classic Snowflake bit pattern.
    pub fn decode_raw(id: u64) -> (parts: ClassicalSnowflakeParts)
        ensures
            parts.spec_timestamp() == classical_decoded_timestamp(id),
            parts.spec_node_id() == classical_decoded_node_id(id),
            parts.spec_sequence() == classical_decoded_sequence(id),
    {
        proof {
            assert((1u64 << 12u8) - 1 == 0xfffu64) by (bit_vector);
        }
        let timestamp = id >> (NODE_BITS + SEQUENCE_BITS);
        let node_id = (id >> SEQUENCE_BITS) & MAX_NODE_ID;
        let sequence = id & ((1u64 << SEQUENCE_BITS) - 1);
        ClassicalSnowflakeParts::new(timestamp, node_id, sequence)
    }

    /// Composes a classic Snowflake ID from timestamp and sequence parts.
    ///
    /// # Errors
    ///
    /// Returns the same overflow errors as [`Self::compose_raw`].
    pub fn compose(&self, timestamp: u64, sequence: u64) -> (id: Result<Id, IdGenerationError>)
        ensures
            match self.spec_compose_raw(timestamp, sequence) {
                Ok(raw) => id matches Ok(id) && id@ == raw,
                Err(error) => id == Err::<Id, IdGenerationError>(error),
            },
    {
        match self.compose_raw(timestamp, sequence) {
            Ok(raw) => Ok(Id::new(raw)),
            Err(error) => Err(error),
        }
    }
}

impl SnowflakeLayoutSpec for ClassicalSnowflakeLayout {
    open spec fn layout_wf(&self) -> bool {
        self.wf()
    }

    open spec fn spec_time_unit(&self) -> u128 {
        NANOS_PER_MILLISECOND
    }

    open spec fn spec_max_timestamp(&self) -> u64 {
        classical_max_timestamp()
    }

    open spec fn spec_max_sequence(&self) -> u64 {
        classical_max_sequence()
    }

    open spec fn spec_id(&self, timestamp: u64, sequence: u64) -> u64 {
        classical_id(timestamp, self.spec_node_id(), sequence)
    }

    open spec fn spec_compose(&self, timestamp: u64, sequence: u64) -> Result<u64, IdGenerationError> {
        self.spec_compose_raw(timestamp, sequence)
    }

    proof fn lemma_layout_facts(&self, timestamp: u64, sequence: u64) {
    }

    proof fn lemma_id_injective(
        &self,
        timestamp1: u64,
        sequence1: u64,
        timestamp2: u64,
        sequence2: u64,
    ) {
        lemma_classical_decode_compose(timestamp1, self.spec_node_id(), sequence1);
        lemma_classical_decode_compose(timestamp2, self.spec_node_id(), sequence2);
    }

    /// Classic layouts are time ordered.
    open spec fn spec_time_ordered(&self) -> bool {
        true
    }

    proof fn lemma_id_increasing(
        &self,
        timestamp1: u64,
        sequence1: u64,
        timestamp2: u64,
        sequence2: u64,
    ) {
        lemma_classical_id_increasing(
            self.spec_node_id(),
            timestamp1,
            sequence1,
            timestamp2,
            sequence2,
        );
    }

    /// Returns the one-millisecond classic Snowflake time unit.
    fn unit_nanos(&self) -> (nanos: u128) {
        self.time_unit()
    }

    /// Returns the greatest classic Snowflake timestamp.
    fn timestamp_limit(&self) -> (max: u64) {
        self.max_timestamp()
    }

    /// Returns the greatest classic Snowflake sequence.
    fn sequence_limit(&self) -> (max: u64) {
        self.max_sequence()
    }

    /// Composes a classic Snowflake ID.
    fn compose_parts(&self, timestamp: u64, sequence: u64) -> (id: Result<u64, IdGenerationError>) {
        self.compose_raw(timestamp, sequence)
    }
}

/// Decoding a composed classic ID returns the parts it was composed from,
/// and the ID stays below 2^63, so it fits a signed 64-bit key.
pub proof fn lemma_classical_decode_compose(timestamp: u64, node_id: u64, sequence: u64)
    requires
        classical_parts_fit(timestamp, node_id, sequence),
    ensures
        ({
            let id = classical_id(timestamp, node_id, sequence);
            &&& classical_decoded_timestamp(id) == timestamp
            &&& classical_decoded_node_id(id) == node_id
            &&& classical_decoded_sequence(id) == sequence
            &&& id <= 0x7fff_ffff_ffff_ffff
        }),
{
    assert({
        let id = (timestamp << 22u64) | (node_id << 12u64) | sequence;
        &&& id >> 22u64 == timestamp
        &&& (id >> 12u64) & 1023 == node_id
        &&& id & 0xfff == sequence
        &&& id <= 0x7fff_ffff_ffff_ffff
    }) by (bit_vector)
        requires
            timestamp <= 0x1ff_ffff_ffff,
            node_id <= 1023,
            sequence <= 0xfff,
    ;
}

/// The ID a well-formed classic layout makes of a fitting timestamp and
/// sequence stays below 2^63 and decodes to those parts and the layout's
/// node.
pub proof fn lemma_classical_layout_id(layout: ClassicalSnowflakeLayout, timestamp: u64, sequence: u64)
    requires
        layout.wf(),
        timestamp <= classical_max_timestamp(),
        sequence <= classical_max_sequence(),
    ensures
        ({
            let id = classical_id(timestamp, layout.spec_node_id(), sequence);
            &&& id <= 0x7fff_ffff_ffff_ffff
            &&& classical_decoded_timestamp(id) == timestamp
            &&& classical_decoded_node_id(id) == layout.spec_node_id()
            &&& classical_decoded_sequence(id) == sequence
        }),
{
    lemma_classical_decode_compose(timestamp, layout.spec_node_id(), sequence);
}

/// Every bit pattern below 2^63 is the classic ID of its own decoded
/// fields, and those fields fit.
pub proof fn lemma_classical_compose_decode(id: u64)
    requires
        id <= 0x7fff_ffff_ffff_ffff,
    ensures
        classical_parts_fit(
            classical_decoded_timestamp(id),
            classical_decoded_node_id(id),
            classical_decoded_sequence(id),
        ),
        classical_id(
            classical_decoded_timestamp(id),
            classical_decoded_node_id(id),
            classical_decoded_sequence(id),
        ) == id,
{
    assert({
        &&& id >> 22u64 <= 0x1ff_ffff_ffff
        &&& (id >> 12u64) & 1023 <= 1023
        &&& id & 0xfff <= 0xfff
        &&& ((id >> 22u64) << 22u64) | (((id >> 12u64) & 1023) << 12u64) | (id & 0xfff) == id
    }) by (bit_vector)
        requires
            id <= 0x7fff_ffff_ffff_ffff,
    ;
}

/// Classic IDs of one node increase with the timestamp, and within a
/// timestamp with the sequence.
pub proof fn lemma_classical_id_increasing(
    node_id: u64,
    timestamp1: u64,
    sequence1: u64,
    timestamp2: u64,
    sequence2: u64,
)
    requires
        classical_parts_fit(timestamp1, node_id, sequence1),
        classical_parts_fit(timestamp2, node_id, sequence2),
        timestamp1 < timestamp2 || (timestamp1 == timestamp2 && sequence1 < sequence2),
    ensures
        classical_id(timestamp1, node_id, sequence1) < classical_id(timestamp2, node_id, sequence2),
{
    assert((timestamp1 << 22u64) | (node_id << 12u64) | sequence1 == timestamp1 * 0x40_0000
        + node_id * 0x1000 + sequence1) by (bit_vector)
        requires
            timestamp1 <= 0x1ff_ffff_ffff,
            node_id <= 1023,
            sequence1 <= 0xfff,
    ;
    assert((timestamp2 << 22u64) | (node_id << 12u64) | sequence2 == timestamp2 * 0x40_0000
        + node_id * 0x1000 + sequence2) by (bit_vector)
        requires
            timestamp2 <= 0x1ff_ffff_ffff,
            node_id <= 1023,
            sequence2 <= 0xfff,
    ;
    assert(timestamp1 * 0x40_0000 + node_id * 0x1000 + sequence1 < timestamp2 * 0x40_0000
        + node_id * 0x1000 + sequence2) by (nonlinear_arith)
        requires
            node_id <= 1023,
            sequence1 <= 0xfff,
            sequence2 <= 0xfff,
            timestamp1 < timestamp2 || (timestamp1 == timestamp2 && sequence1 < sequence2),
    ;
}

} // verus!
