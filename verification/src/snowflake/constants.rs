//! Constants shared by the Qubit Snowflake layouts and generators.

use vstd::prelude::*;

verus! {

/// Number of bits used for the host field in Qubit snowflake IDs.
pub const HOST_BITS: u8 = 9;

/// Minimum valid Qubit host identifier.
pub const HOST_MIN: u64 = 0;

/// Maximum valid Qubit host identifier.
pub const HOST_MAX: u64 = 511;

/// Number of bits used for the mode field in Qubit snowflake IDs.
pub const MODE_BITS: u8 = 1;

/// Number of bits used for the precision field in Qubit snowflake IDs.
pub const PRECISION_BITS: u8 = 1;

/// Timestamp bits used by millisecond precision.
pub const TIMESTAMP_BITS_IN_MILLISECOND: u8 = 41;

/// Sequence bits used by millisecond precision.
pub const SEQUENCE_BITS_IN_MILLISECOND: u8 = 12;

/// Pause, in milliseconds, while waiting for the next millisecond slice.
pub const WAIT_DURATION_IN_MILLISECOND: u64 = 1;

/// Timestamp bits used by second precision.
pub const TIMESTAMP_BITS_IN_SECOND: u8 = 31;

/// Sequence bits used by second precision.
pub const SEQUENCE_BITS_IN_SECOND: u8 = 22;

/// Pause, in milliseconds, while waiting for the next second slice.
pub const WAIT_DURATION_IN_SECOND: u64 = 500;

/// Default Qubit epoch, 2018-12-02T00:00:00Z, in milliseconds since the Unix
/// epoch. Classic Snowflake generators default to the same epoch.
pub const DEFAULT_QUBIT_EPOCH_MILLIS: u64 = 1_543_708_800_000;

/// Default maximum tolerated clock skew in milliseconds.
pub const DEFAULT_MAX_SKEW_MILLIS: u64 = 3_000;

/// Default maximum tolerated raw wall-clock rollback of a Qubit generator,
/// in nanoseconds (three seconds).
pub const DEFAULT_MAX_CLOCK_SKEW: u128 = 3_000_000_000;

} // verus!
