//! The library's model of wall time and durations.
//!
//! A wall time is a count of nanoseconds since the Unix epoch, negative
//! before it; a duration is a count of nanoseconds. Wall times span the
//! range of the Unix `SystemTime`, whose whole seconds fit an `i64`.

use vstd::prelude::*;

verus! {

/// Nanoseconds in one second.
pub const NANOS_PER_SECOND: u128 = 1_000_000_000;

/// Nanoseconds in one millisecond.
pub const NANOS_PER_MILLISECOND: u128 = 1_000_000;

/// Earliest representable wall time: `i64::MIN` whole seconds.
pub const WALL_TIME_MIN: i128 = -9_223_372_036_854_775_808_000_000_000;

/// Latest representable wall time: `i64::MAX` whole seconds and the last
/// nanosecond of that second.
pub const WALL_TIME_MAX: i128 = 9_223_372_036_854_775_807_999_999_999;

/// Greatest duration: `u64::MAX` whole seconds and the last nanosecond of
/// that second.
pub const DURATION_MAX: u128 = 18_446_744_073_709_551_615_999_999_999;

/// Whether `time` is a representable wall time.
pub open spec fn is_wall_time(time: int) -> bool {
    WALL_TIME_MIN <= time <= WALL_TIME_MAX
}

} // verus!
