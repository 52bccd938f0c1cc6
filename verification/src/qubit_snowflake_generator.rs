//! Allocation decisions of the Java-compatible Qubit snowflake generator:
//! converting a wall time to a precision-aware timestamp, and choosing the
//! next timestamp and sequence from the last ones.

use vstd::prelude::*;

use crate::id_error::IdError;
use crate::id_mode::IdMode;
use crate::snowflake::internal::time_slice::TimeSlice;
use crate::snowflake::qubit_bits::{
    lemma_qubit_id_injective, lemma_sequential_qubit_id_increasing, max_sequence_of, qubit_parts_fit,
};
use crate::snowflake::qubit_snowflake_builder::{lemma_builder_host_fits, QubitSnowflakeBuilder};
use crate::timestamp_precision::TimestampPrecision;
use crate::wall_time::{is_wall_time, NANOS_PER_MILLISECOND};

verus! {

/// What the generator does next.
#[derive(Debug, Clone, Copy, PartialEq, Eq, Structural)]
pub enum QubitSnowflakeStep {
    /// Compose this timestamp and sequence; they are now the last ones.
    Emit {
        /// Timestamp to encode.
        timestamp: u64,
        /// Sequence to encode.
        sequence: u64,
    },
    /// The clock is behind the last timestamp by a tolerated skew: sleep
    /// this many milliseconds, then start over.
    SleepMillis(u64),
    /// The sequences of `timestamp` are used up: wait for a later timestamp
    /// and settle on it.
    AwaitLaterThan(u64),
}

/// The timestamp of `time`: whole milliseconds since `epoch`, divided by the
/// precision's milliseconds per unit; or why there is none.
pub open spec fn spec_timestamp_for(
    time: i128,
    epoch: i128,
    precision: TimestampPrecision,
    max_timestamp: u64,
) -> Result<u64, IdError> {
    if time < epoch {
        Err(IdError::TimeBeforeEpoch { time, epoch })
    } else {
        let timestamp = (time - epoch) / (NANOS_PER_MILLISECOND as int) / (
        precision.spec_divisor_millis() as int);
        if timestamp > max_timestamp {
            Err(
                IdError::TimestampOverflow {
                    timestamp: if timestamp > u64::MAX {
                        u64::MAX
                    } else {
                        timestamp as u64
                    },
                    max: max_timestamp,
                },
            )
        } else {
            Ok(timestamp as u64)
        }
    }
}

/// Converts a wall time into a precision-aware timestamp.
///
/// # Errors
///
/// Returns [`IdError::TimeBeforeEpoch`] when `time` is before the epoch, or
/// [`IdError::TimestampOverflow`] when the timestamp exceeds the layout.
pub fn timestamp_for(
    time: i128,
    epoch: i128,
    precision: TimestampPrecision,
    max_timestamp: u64,
) -> (timestamp: Result<u64, IdError>)
    requires
        is_wall_time(time as int),
        is_wall_time(epoch as int),
    ensures
        timestamp == spec_timestamp_for(time, epoch, precision, max_timestamp),
{
    if time < epoch {
        return Err(IdError::TimeBeforeEpoch { time, epoch });
    }
    let elapsed: u128 = (time - epoch) as u128;
    let timestamp: u128 = elapsed / NANOS_PER_MILLISECOND / precision.divisor_millis() as u128;
    if timestamp > max_timestamp as u128 {
        let reported: u64 = if timestamp > u64::MAX as u128 {
            u64::MAX
        } else {
            timestamp as u64
        };
        return Err(IdError::TimestampOverflow { timestamp: reported, max: max_timestamp });
    }
    Ok(timestamp as u64)
}

/// The next step from the last slice `last` at the observed `timestamp`.
///
/// A clock behind the last timestamp by more than `max_skew_millis` is an
/// error, by less a pause of the skew. At the last timestamp the sequence
/// advances, and once it would wrap past `max_sequence` the generator waits
/// for a later timestamp. At a later timestamp the sequence restarts at
/// zero.
pub open spec fn spec_next_step(
    last: TimeSlice,
    timestamp: u64,
    max_sequence: u64,
    divisor_millis: u64,
    max_skew_millis: u64,
) -> Result<QubitSnowflakeStep, IdError> {
    if last.timestamp > timestamp {
        let skew_millis = (last.timestamp - timestamp) * divisor_millis;
        if skew_millis > max_skew_millis {
            Err(
                IdError::ClockMovedBackwards {
                    last_elapsed: (last.timestamp * divisor_millis * NANOS_PER_MILLISECOND) as u128,
                    current_elapsed: (timestamp * divisor_millis * NANOS_PER_MILLISECOND) as u128,
                    skew: (skew_millis * NANOS_PER_MILLISECOND) as u128,
                    max_skew: (max_skew_millis * NANOS_PER_MILLISECOND) as u128,
                },
            )
        } else {
            Ok(QubitSnowflakeStep::SleepMillis(skew_millis as u64))
        }
    } else if timestamp == last.timestamp {
        if last.sequence == max_sequence {
            Ok(QubitSnowflakeStep::AwaitLaterThan(timestamp))
        } else {
            Ok(
                QubitSnowflakeStep::Emit {
                    timestamp,
                    sequence: (last.sequence + 1) as u64,
                },
            )
        }
    } else {
        Ok(QubitSnowflakeStep::Emit { timestamp, sequence: 0 })
    }
}

/// What the generator does next, by how the observed `timestamp` compares
/// with the last one: behind it by a rollback of `(last - timestamp) *
/// divisor_millis` milliseconds, it sleeps exactly that long when the
/// rollback is within `max_skew_millis` and fails with that rollback in
/// nanoseconds otherwise; at the last timestamp it takes the next sequence,
/// or waits for a later timestamp once the sequences are used up; at a later
/// timestamp it starts over at sequence zero.
pub proof fn lemma_next_step_law(
    last: TimeSlice,
    timestamp: u64,
    max_sequence: u64,
    divisor_millis: u64,
    max_skew_millis: u64,
)
    requires
        1 <= divisor_millis <= 1000,
        last.timestamp <= 0x1ff_ffff_ffff,
        timestamp <= 0x1ff_ffff_ffff,
        last.sequence <= max_sequence < u64::MAX,
    ensures
        ({
            let step = spec_next_step(last, timestamp, max_sequence, divisor_millis, max_skew_millis);
            let rollback: int = (last.timestamp - timestamp) * divisor_millis;
            &&& timestamp < last.timestamp && rollback <= max_skew_millis ==> step == Ok::<
                QubitSnowflakeStep,
                IdError,
            >(QubitSnowflakeStep::SleepMillis(rollback as u64))
            &&& timestamp < last.timestamp && rollback > max_skew_millis ==> (step matches Err(
                IdError::ClockMovedBackwards { last_elapsed, current_elapsed, skew, max_skew },
            ) && skew == rollback * 1_000_000 && max_skew == max_skew_millis * 1_000_000
                && last_elapsed == last.timestamp * divisor_millis * 1_000_000 && current_elapsed
                == timestamp * divisor_millis * 1_000_000)
            &&& timestamp == last.timestamp && last.sequence < max_sequence ==> step == Ok::<
                QubitSnowflakeStep,
                IdError,
            >(QubitSnowflakeStep::Emit { timestamp, sequence: (last.sequence + 1) as u64 })
            &&& timestamp == last.timestamp && last.sequence == max_sequence ==> step == Ok::<
                QubitSnowflakeStep,
                IdError,
            >(QubitSnowflakeStep::AwaitLaterThan(timestamp))
            &&& timestamp > last.timestamp ==> step == Ok::<QubitSnowflakeStep, IdError>(
                QubitSnowflakeStep::Emit { timestamp, sequence: 0 },
            )
        }),
{
    if timestamp < last.timestamp {
        assert((last.timestamp - timestamp) * divisor_millis <= 0x1ff_ffff_ffff * 1000)
            by (nonlinear_arith)
            requires
                last.timestamp > timestamp,
                last.timestamp <= 0x1ff_ffff_ffff,
                divisor_millis <= 1000,
        ;
        assert(last.timestamp * divisor_millis <= 0x1ff_ffff_ffff * 1000) by (nonlinear_arith)
            requires
                last.timestamp <= 0x1ff_ffff_ffff,
                divisor_millis <= 1000,
        ;
        assert(timestamp * divisor_millis <= 0x1ff_ffff_ffff * 1000) by (nonlinear_arith)
            requires
                timestamp <= 0x1ff_ffff_ffff,
                divisor_millis <= 1000,
        ;
    }
}

/// Decides the next step from the last slice at the observed `timestamp`,
/// and records an emitted slice as the last one.
///
/// # Errors
///
/// Returns [`IdError::ClockMovedBackwards`] when the clock is behind the last
/// timestamp by more than `max_skew_millis`.
pub fn next_step(
    last: &mut TimeSlice,
    timestamp: u64,
    max_sequence: u64,
    divisor_millis: u64,
    max_skew_millis: u64,
) -> (step: Result<QubitSnowflakeStep, IdError>)
    requires
        1 <= divisor_millis <= 1000,
        old(last).timestamp <= 0x1ff_ffff_ffff,
        timestamp <= 0x1ff_ffff_ffff,
        old(last).sequence <= max_sequence,
        max_sequence == 0xfff || max_sequence == 0x3f_ffff,
    ensures
        step == spec_next_step(*old(last), timestamp, max_sequence, divisor_millis, max_skew_millis),
        step matches Ok(QubitSnowflakeStep::Emit { timestamp: t, sequence: s }) ==> *final(last)
            == (TimeSlice { timestamp: t, sequence: s }) && old(last).precedes(*final(last)),
        !(step matches Ok(QubitSnowflakeStep::Emit { .. })) ==> *final(last) == *old(last),
{
    proof {
        assert(last.timestamp * divisor_millis <= 0x1ff_ffff_ffff * 1000) by (nonlinear_arith)
            requires
                last.timestamp <= 0x1ff_ffff_ffff,
                divisor_millis <= 1000,
        ;
    }
    if last.timestamp > timestamp {
        proof {
            assert((last.timestamp - timestamp) * divisor_millis <= last.timestamp * divisor_millis)
                by (nonlinear_arith)
                requires
                    last.timestamp > timestamp,
            ;
        }
        let skew_millis = (last.timestamp - timestamp) * divisor_millis;
        if skew_millis > max_skew_millis {
            proof {
                assert(timestamp * divisor_millis <= last.timestamp * divisor_millis)
                    by (nonlinear_arith)
                    requires
                        last.timestamp > timestamp,
                ;
            }
            return Err(
                IdError::ClockMovedBackwards {
                    last_elapsed: last.timestamp as u128 * divisor_millis as u128
                        * NANOS_PER_MILLISECOND,
                    current_elapsed: timestamp as u128 * divisor_millis as u128
                        * NANOS_PER_MILLISECOND,
                    skew: skew_millis as u128 * NANOS_PER_MILLISECOND,
                    max_skew: max_skew_millis as u128 * NANOS_PER_MILLISECOND,
                },
            );
        }
        return Ok(QubitSnowflakeStep::SleepMillis(skew_millis));
    }
    let sequence = if timestamp == last.timestamp {
        let next_sequence = (last.sequence + 1) & max_sequence;
        proof {
            let s = last.sequence;
            let m = max_sequence;
            assert(s < m ==> ((s + 1) as u64) & m == s + 1) by (bit_vector)
                requires
                    s <= m,
                    m == 0xfff || m == 0x3f_ffff,
            ;
            assert(s == m ==> ((s + 1) as u64) & m == 0) by (bit_vector)
                requires
                    m == 0xfff || m == 0x3f_ffff,
            ;
        }
        if next_sequence == 0 {
            return Ok(QubitSnowflakeStep::AwaitLaterThan(timestamp));
        }
        next_sequence
    } else {
        0
    };
    last.timestamp = timestamp;
    last.sequence = sequence;
    Ok(QubitSnowflakeStep::Emit { timestamp, sequence })
}

/// Settles on the later timestamp found after the sequences of the last one
/// ran out: sequence zero of it becomes the last slice.
pub fn settle_later(last: &mut TimeSlice, timestamp: u64) -> (slice: TimeSlice)
    requires
        old(last).timestamp < timestamp,
    ensures
        slice == (TimeSlice { timestamp, sequence: 0 }),
        *final(last) == slice,
        old(last).precedes(slice),
{
    last.timestamp = timestamp;
    last.sequence = 0;
    *last
}

/// Whether the generator can hand out `next` right after `last`: `next` is
/// what [`next_step`] emits from `last` at some timestamp, or what
/// [`settle_later`] settles on after the sequences of `last` ran out.
pub open spec fn hands_out_after(
    last: TimeSlice,
    next: TimeSlice,
    max_sequence: u64,
    divisor_millis: u64,
    max_skew_millis: u64,
) -> bool {
    ||| exists|timestamp: u64|
        #[trigger] spec_next_step(last, timestamp, max_sequence, divisor_millis, max_skew_millis)
            == Ok::<QubitSnowflakeStep, IdError>(
            QubitSnowflakeStep::Emit { timestamp: next.timestamp, sequence: next.sequence },
        )
    ||| last.timestamp < next.timestamp && next.sequence == 0
}

/// `slices` are the last slices of one generator in turn: each is handed
/// out right after the one before, under `builder`'s sequence limit and
/// precision.
pub open spec fn handed_out_history(
    slices: Seq<TimeSlice>,
    builder: QubitSnowflakeBuilder,
    max_skew_millis: u64,
) -> bool {
    forall|k: int|
        0 <= k < slices.len() - 1 ==> #[trigger] hands_out_after(
            slices[k],
            slices[k + 1],
            max_sequence_of(builder.spec_precision()),
            builder.spec_precision().spec_divisor_millis(),
            max_skew_millis,
        )
}

/// A slice handed out right after `last` comes strictly after it and keeps
/// its sequence within bounds.
proof fn lemma_hands_out_after_follows(
    last: TimeSlice,
    next: TimeSlice,
    max_sequence: u64,
    divisor_millis: u64,
    max_skew_millis: u64,
)
    requires
        hands_out_after(last, next, max_sequence, divisor_millis, max_skew_millis),
        last.sequence <= max_sequence,
    ensures
        last.precedes(next),
        next.sequence <= max_sequence,
{
    if !(last.timestamp < next.timestamp && next.sequence == 0) {
        let timestamp = choose|timestamp: u64|
            #[trigger] spec_next_step(last, timestamp, max_sequence, divisor_millis, max_skew_millis)
                == Ok::<QubitSnowflakeStep, IdError>(
                QubitSnowflakeStep::Emit { timestamp: next.timestamp, sequence: next.sequence },
            );
        assert(spec_next_step(last, timestamp, max_sequence, divisor_millis, max_skew_millis)
            == Ok::<QubitSnowflakeStep, IdError>(
            QubitSnowflakeStep::Emit { timestamp: next.timestamp, sequence: next.sequence },
        ));
    }
}

/// In a history from a slice within the sequence bound, every slice keeps
/// its sequence within bounds and comes strictly after every earlier one.
proof fn lemma_history_precedes(
    slices: Seq<TimeSlice>,
    builder: QubitSnowflakeBuilder,
    max_skew_millis: u64,
    i: int,
    j: int,
)
    requires
        handed_out_history(slices, builder, max_skew_millis),
        slices[0].sequence <= max_sequence_of(builder.spec_precision()),
        0 <= i <= j < slices.len(),
    ensures
        slices[j].sequence <= max_sequence_of(builder.spec_precision()),
        i < j ==> slices[i].precedes(slices[j]),
    decreases j,
{
    if j > 0 {
        let k = j - 1;
        assert(hands_out_after(
            slices[k],
            slices[k + 1],
            max_sequence_of(builder.spec_precision()),
            builder.spec_precision().spec_divisor_millis(),
            max_skew_millis,
        ));
        lemma_history_precedes(slices, builder, max_skew_millis, if i < j { i } else { k }, k);
        lemma_hands_out_after_follows(
            slices[k],
            slices[k + 1],
            max_sequence_of(builder.spec_precision()),
            builder.spec_precision().spec_divisor_millis(),
            max_skew_millis,
        );
    }
}

/// One generator never hands out the same ID twice: across its history,
/// a later slice comes strictly after an earlier one, so the IDs built
/// from them differ, and in sequential mode the later ID is larger.
pub proof fn lemma_handed_out_ids_distinct(
    slices: Seq<TimeSlice>,
    builder: QubitSnowflakeBuilder,
    max_skew_millis: u64,
    i: int,
    j: int,
)
    requires
        builder.wf(),
        handed_out_history(slices, builder, max_skew_millis),
        slices[0].sequence <= max_sequence_of(builder.spec_precision()),
        0 <= i < j < slices.len(),
    ensures
        slices[i].precedes(slices[j]),
        ({
            let earlier = builder.spec_build(slices[i].timestamp, slices[i].sequence);
            let later = builder.spec_build(slices[j].timestamp, slices[j].sequence);
            earlier is Ok && later is Ok ==> earlier->Ok_0 != later->Ok_0 && (builder.spec_mode()
                == IdMode::Sequential ==> earlier->Ok_0 < later->Ok_0)
        }),
{
    lemma_history_precedes(slices, builder, max_skew_millis, i, j);
    lemma_builder_host_fits(builder);
    let a = slices[i];
    let b = slices[j];
    if builder.spec_build(a.timestamp, a.sequence) is Ok && builder.spec_build(
        b.timestamp,
        b.sequence,
    ) is Ok {
        assert(qubit_parts_fit(builder.spec_precision(), builder.spec_host(), a.timestamp, a.sequence));
        assert(qubit_parts_fit(builder.spec_precision(), builder.spec_host(), b.timestamp, b.sequence));
        if builder.spec_build(a.timestamp, a.sequence) == builder.spec_build(
            b.timestamp,
            b.sequence,
        ) {
            lemma_qubit_id_injective(
                builder.spec_mode(),
                builder.spec_precision(),
                builder.spec_host(),
                a.timestamp,
                a.sequence,
                b.timestamp,
                b.sequence,
            );
        }
        if builder.spec_mode() == IdMode::Sequential {
            lemma_sequential_qubit_id_increasing(
                builder.spec_precision(),
                builder.spec_host(),
                a.timestamp,
                a.sequence,
                b.timestamp,
                b.sequence,
            );
        }
    }
}

} // verus!
