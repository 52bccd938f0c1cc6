//! Checked exclusive-expiration calculations for Snowflake layouts.

use vstd::prelude::*;

use crate::id_generation_error::IdGenerationError;
use crate::wall_time::{is_wall_time, DURATION_MAX, NANOS_PER_SECOND, WALL_TIME_MAX};

verus! {

/// Nanoseconds covered by the timestamps `0..=max_timestamp` of `time_unit`
/// nanoseconds each.
pub open spec fn lifetime_nanos(time_unit: u128, max_timestamp: u64) -> int {
    time_unit * (max_timestamp + 1)
}

/// The exclusive expiration of a layout whose timestamps `0..=max_timestamp`
/// of `time_unit` nanoseconds start at `origin`: the first instant that
/// cannot be encoded, or an overflow error when that instant or the lifetime
/// before it cannot be represented.
pub open spec fn spec_expiration_time(origin: i128, time_unit: u128, max_timestamp: u64) -> Result<
    i128,
    IdGenerationError,
> {
    let lifetime = lifetime_nanos(time_unit, max_timestamp);
    if lifetime <= DURATION_MAX && origin + lifetime <= WALL_TIME_MAX {
        Ok((origin + lifetime) as i128)
    } else {
        Err(IdGenerationError::ExpirationTimeOverflow { origin, time_unit, max_timestamp })
    }
}

/// Calculates the exclusive expiration time for a timestamp layout.
///
/// The timestamp range `0..=max_timestamp` contains `max_timestamp + 1`
/// complete units, so the returned boundary is the first instant that cannot
/// be encoded by the layout.
///
/// # Errors
///
/// Returns [`IdGenerationError::ExpirationTimeOverflow`] when the lifetime
/// or the resulting wall time cannot be represented.
pub fn expiration_time(origin: i128, time_unit: u128, max_timestamp: u64) -> (expires_at: Result<
    i128,
    IdGenerationError,
>)
    requires
        is_wall_time(origin as int),
    ensures
        expires_at == spec_expiration_time(origin, time_unit, max_timestamp),
{
    let unit_count: u128 = max_timestamp as u128 + 1;
    let total_nanos: u128 = match time_unit.checked_mul(unit_count) {
        Some(total_nanos) => total_nanos,
        None => {
            return Err(IdGenerationError::ExpirationTimeOverflow { origin, time_unit, max_timestamp });
        },
    };
    let seconds: u128 = total_nanos / NANOS_PER_SECOND;
    if seconds > u64::MAX as u128 {
        return Err(IdGenerationError::ExpirationTimeOverflow { origin, time_unit, max_timestamp });
    }
    proof {
        assert(total_nanos <= DURATION_MAX);
    }
    let lifetime: i128 = total_nanos as i128;
    if origin > WALL_TIME_MAX - lifetime {
        return Err(IdGenerationError::ExpirationTimeOverflow { origin, time_unit, max_timestamp });
    }
    Ok(origin + lifetime)
}

/// Rejects a timestamp epoch that has not started at the observed wall time.
///
/// # Errors
///
/// Returns [`IdGenerationError::EpochAhead`] when `epoch` is later than
/// `current_time`.
pub fn validate_generator_epoch(epoch: i128, current_time: i128) -> (result: Result<
    (),
    IdGenerationError,
>)
    ensures
        result == (if epoch > current_time {
            Err(IdGenerationError::EpochAhead { epoch, current_time })
        } else {
            Ok(())
        }),
{
    if epoch > current_time {
        return Err(IdGenerationError::EpochAhead { epoch, current_time });
    }
    Ok(())
}

/// Validates a configured lifetime against an observed wall time.
///
/// # Errors
///
/// Returns [`IdGenerationError::EpochAhead`] when `epoch` is later than
/// `current_time`, or [`IdGenerationError::GeneratorExpired`] when
/// `current_time` has reached `expires_at`.
pub fn validate_generator_lifetime(epoch: i128, expires_at: i128, current_time: i128) -> (result:
    Result<(), IdGenerationError>)
    ensures
        result == (if epoch > current_time {
            Err(IdGenerationError::EpochAhead { epoch, current_time })
        } else if current_time >= expires_at {
            Err(IdGenerationError::GeneratorExpired { observed_at: current_time, expires_at })
        } else {
            Ok(())
        }),
{
    validate_generator_epoch(epoch, current_time)?;
    if current_time >= expires_at {
        return Err(IdGenerationError::GeneratorExpired { observed_at: current_time, expires_at });
    }
    Ok(())
}

} // verus!
