//! An unquantized wall-clock observation.

use vstd::prelude::*;

use crate::id_generation_error::IdGenerationError;
use crate::wall_time::is_wall_time;

verus! {

/// Raw and quantized time observed during one allocation attempt.
#[derive(Debug, Clone, Copy, PartialEq, Eq, Structural)]
pub struct ClockObservation {
    /// Unquantized nanoseconds since the configured reference time.
    pub elapsed: u128,
    /// Encoded logical time slice.
    pub timestamp: u64,
    /// Positive nanoseconds from this observation to the next slice boundary.
    pub retry_after: u128,
}

impl ClockObservation {
    /// What observing `time` against `epoch` with slices of `time_unit`
    /// nanoseconds gives: the elapsed time, the slice it falls in, and the
    /// time left in that slice; or an error when `time` precedes `epoch`.
    pub open spec fn spec_from_time(time: i128, epoch: i128, time_unit: u128) -> Result<
        ClockObservation,
        IdGenerationError,
    > {
        if time < epoch {
            Err(IdGenerationError::TimeBeforeEpoch { time, epoch })
        } else {
            let elapsed = time - epoch;
            Ok(
                ClockObservation {
                    elapsed: elapsed as u128,
                    timestamp: (elapsed / (time_unit as int)) as u64,
                    retry_after: (time_unit - elapsed % (time_unit as int)) as u128,
                },
            )
        }
    }

    /// Converts one wall time into raw and quantized generator time.
    ///
    /// # Errors
    ///
    /// Returns [`IdGenerationError::TimeBeforeEpoch`] when `time` precedes
    /// `epoch`.
    pub fn from_time(time: i128, epoch: i128, time_unit: u128, max_timestamp: u64) -> (observation:
        Result<Self, IdGenerationError>)
        requires
            time_unit > 0,
            is_wall_time(time as int),
            is_wall_time(epoch as int),
            time >= epoch ==> (time - epoch) / (time_unit as int) <= max_timestamp,
        ensures
            observation == Self::spec_from_time(time, epoch, time_unit),
            observation matches Ok(o) ==> 0 < o.retry_after <= time_unit && o.timestamp
                <= max_timestamp,
    {
        if time < epoch {
            return Err(IdGenerationError::TimeBeforeEpoch { time, epoch });
        }
        let elapsed: u128 = (time - epoch) as u128;
        let timestamp: u128 = elapsed / time_unit;
        let elapsed_in_slice: u128 = elapsed % time_unit;
        let retry_after: u128 = time_unit - elapsed_in_slice;
        Ok(ClockObservation { elapsed, timestamp: timestamp as u64, retry_after })
    }
}

} // verus!
