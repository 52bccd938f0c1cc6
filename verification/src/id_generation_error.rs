//! Error type returned by ID generators.
//!
//! Wall times are carried as signed nanoseconds since the Unix epoch and
//! durations as unsigned nanoseconds.

use vstd::prelude::*;

verus! {

/// Error returned when an ID generator cannot create or compose an ID.
#[allow(inconsistent_fields)]
#[derive(Debug)]
pub enum IdGenerationError {
    /// A Qubit snowflake host identifier is outside its bit range.
    HostOutOfRange {
        /// Provided host identifier.
        host: u64,
        /// Maximum valid host identifier.
        max: u64,
    },
    /// A classic snowflake node identifier is outside its bit range.
    NodeOutOfRange {
        /// Provided node identifier.
        node_id: u64,
        /// Maximum valid node identifier.
        max: u64,
    },
    /// A Sonyflake machine identifier is outside its bit range.
    MachineIdOutOfRange {
        /// Provided machine identifier.
        machine_id: u64,
        /// Maximum valid machine identifier.
        max: u64,
    },
    /// A timestamp or elapsed time is too large for the configured bit layout.
    TimestampOverflow {
        /// Provided timestamp or elapsed time.
        timestamp: u64,
        /// Maximum representable timestamp or elapsed time.
        max: u64,
    },
    /// A sequence number is too large for the configured bit layout.
    SequenceOverflow {
        /// Provided sequence number.
        sequence: u64,
        /// Maximum representable sequence number.
        max: u64,
    },
    /// The observed clock moved backwards beyond the configured tolerance.
    ClockMovedBackwards {
        /// Greatest elapsed time observed by the generator, in nanoseconds.
        last_elapsed: u128,
        /// Elapsed time of the current observation, in nanoseconds.
        current_elapsed: u128,
        /// Difference between the last and current elapsed times.
        skew: u128,
        /// Maximum tolerated backwards movement.
        max_skew: u128,
    },
    /// The requested time is before the configured epoch.
    TimeBeforeEpoch {
        /// Wall time that could not be represented relative to the epoch.
        time: i128,
        /// Configured timestamp epoch.
        epoch: i128,
    },
    /// The configured epoch is ahead of the generator clock.
    EpochAhead {
        /// Configured epoch.
        epoch: i128,
        /// Wall time observed while validating the builder.
        current_time: i128,
    },
    /// A Sonyflake bit length setting is invalid.
    InvalidBitLength {
        /// Name of the invalid bit field.
        name: &'static str,
        /// Provided bit length.
        bits: u8,
        /// Human-readable constraint for the field.
        reason: &'static str,
    },
    /// A Sonyflake time unit is invalid.
    InvalidTimeUnit {
        /// Provided time unit in nanoseconds.
        nanos: u128,
        /// Minimum allowed time unit in nanoseconds.
        min_nanos: u128,
    },
    /// The exclusive expiration cannot be represented as a wall time.
    ExpirationTimeOverflow {
        /// Configured timestamp origin.
        origin: i128,
        /// Nanoseconds represented by one encoded timestamp unit.
        time_unit: u128,
        /// Maximum encoded timestamp supported by the layout.
        max_timestamp: u64,
    },
    /// The generator's exclusive lifetime boundary has been reached.
    GeneratorExpired {
        /// Wall time observed by the generation attempt.
        observed_at: i128,
        /// Exclusive expiration boundary cached by the generator.
        expires_at: i128,
    },
    /// The operating system could not provide random bytes for UUID v4.
    RandomSourceFailed {
        /// Error returned by the operating-system random source.
        source: getrandom::Error,
    },
    /// The injected timer could not register or complete a retry wait.
    WaitFailed {
        /// Error returned by the injected timer or its blocking adapter.
        source: qubit_clock::TimeError,
    },
}

} // verus!
