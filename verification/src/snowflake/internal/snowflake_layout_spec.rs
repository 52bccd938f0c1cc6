//! Layout contract shared by Snowflake-family generators.

use vstd::prelude::*;

use crate::id_generation_error::IdGenerationError;

verus! {

/// Supplies the time and bit operations required by the shared allocator.
pub trait SnowflakeLayoutSpec: Sized {
    /// The layout's fields agree with one another.
    spec fn layout_wf(&self) -> bool;

    /// Nanoseconds represented by one encoded timestamp unit.
    spec fn spec_time_unit(&self) -> u128;

    /// Greatest encoded timestamp accepted by the layout.
    spec fn spec_max_timestamp(&self) -> u64;

    /// Greatest sequence accepted within one timestamp unit.
    spec fn spec_max_sequence(&self) -> u64;

    /// The ID the layout composes from a fitting timestamp and sequence.
    spec fn spec_id(&self, timestamp: u64, sequence: u64) -> u64;

    /// What composing a timestamp and sequence returns.
    spec fn spec_compose(&self, timestamp: u64, sequence: u64) -> Result<u64, IdGenerationError>;

    /// A well-formed layout has a positive time unit and leaves room above
    /// its greatest sequence, and composes every fitting pair into its ID.
    proof fn lemma_layout_facts(&self, timestamp: u64, sequence: u64)
        requires
            self.layout_wf(),
        ensures
            self.spec_time_unit() > 0,
            self.spec_max_sequence() < u64::MAX,
            timestamp <= self.spec_max_timestamp() && sequence <= self.spec_max_sequence()
                ==> self.spec_compose(timestamp, sequence) == Ok::<u64, IdGenerationError>(
                self.spec_id(timestamp, sequence),
            ),
    ;

    /// Distinct fitting pairs compose distinct IDs.
    proof fn lemma_id_injective(&self, timestamp1: u64, sequence1: u64, timestamp2: u64, sequence2: u64)
        requires
            self.layout_wf(),
            timestamp1 <= self.spec_max_timestamp(),
            sequence1 <= self.spec_max_sequence(),
            timestamp2 <= self.spec_max_timestamp(),
            sequence2 <= self.spec_max_sequence(),
            self.spec_id(timestamp1, sequence1) == self.spec_id(timestamp2, sequence2),
        ensures
            timestamp1 == timestamp2,
            sequence1 == sequence2,
    ;

    /// Whether the layout's IDs follow the order of their timestamp and
    /// sequence.
    spec fn spec_time_ordered(&self) -> bool;

    /// In a time-ordered layout a later timestamp, or a later sequence of
    /// the same timestamp, composes a larger ID.
    proof fn lemma_id_increasing(
        &self,
        timestamp1: u64,
        sequence1: u64,
        timestamp2: u64,
        sequence2: u64,
    )
        requires
            self.layout_wf(),
            self.spec_time_ordered(),
            timestamp1 <= self.spec_max_timestamp(),
            sequence1 <= self.spec_max_sequence(),
            timestamp2 <= self.spec_max_timestamp(),
            sequence2 <= self.spec_max_sequence(),
            timestamp1 < timestamp2 || (timestamp1 == timestamp2 && sequence1 < sequence2),
        ensures
            self.spec_id(timestamp1, sequence1) < self.spec_id(timestamp2, sequence2),
    ;

    /// Returns the nanoseconds represented by one encoded timestamp unit.
    fn unit_nanos(&self) -> (nanos: u128)
        requires
            self.layout_wf(),
        ensures
            nanos == self.spec_time_unit(),
    ;

    /// Returns the greatest encoded timestamp accepted by the layout.
    fn timestamp_limit(&self) -> (max: u64)
        requires
            self.layout_wf(),
        ensures
            max == self.spec_max_timestamp(),
    ;

    /// Returns the greatest sequence accepted within one timestamp unit.
    fn sequence_limit(&self) -> (max: u64)
        requires
            self.layout_wf(),
        ensures
            max == self.spec_max_sequence(),
    ;

    /// Composes an identifier from an encoded timestamp and sequence.
    ///
    /// # Errors
    ///
    /// Returns an overflow error when either value exceeds the layout
    /// capacity.
    fn compose_parts(&self, timestamp: u64, sequence: u64) -> (id: Result<u64, IdGenerationError>)
        requires
            self.layout_wf(),
        ensures
            id == self.spec_compose(timestamp, sequence),
    ;
}

} // verus!
