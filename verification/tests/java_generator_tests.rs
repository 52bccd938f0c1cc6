use qubit_id::qubit_snowflake_generator::{next_step, settle_later, timestamp_for, QubitSnowflakeStep};
use qubit_id::snowflake::internal::time_slice::TimeSlice;
use qubit_id::{IdError, IdMode, QubitSnowflakeBuilder, TimestampPrecision};

const MILLI: i128 = 1_000_000;

#[test]
fn timestamp_for_divides_by_precision() {
    let epoch = 1_000 * MILLI;
    assert_eq!(
        timestamp_for(epoch + 5_999 * MILLI, epoch, TimestampPrecision::Second, 10).unwrap(),
        5
    );
    assert_eq!(
        timestamp_for(epoch + 5_999 * MILLI + 999_999, epoch, TimestampPrecision::Millisecond, 10_000)
            .unwrap(),
        5_999
    );
    assert!(matches!(
        timestamp_for(epoch - 1, epoch, TimestampPrecision::Second, 10),
        Err(IdError::TimeBeforeEpoch { time, epoch: e }) if time == epoch - 1 && e == epoch
    ));
    assert!(matches!(
        timestamp_for(epoch + 11_000 * MILLI, epoch, TimestampPrecision::Second, 10),
        Err(IdError::TimestampOverflow { timestamp: 11, max: 10 })
    ));
}

#[test]
fn same_timestamp_advances_sequence_and_later_one_restarts_it() {
    let mut last = TimeSlice::new(0);
    assert_eq!(
        next_step(&mut last, 7, 0xfff, 1000, 3_000).unwrap(),
        QubitSnowflakeStep::Emit { timestamp: 7, sequence: 0 }
    );
    assert_eq!(
        next_step(&mut last, 7, 0xfff, 1000, 3_000).unwrap(),
        QubitSnowflakeStep::Emit { timestamp: 7, sequence: 1 }
    );
    assert_eq!(last, TimeSlice { timestamp: 7, sequence: 1 });
    assert_eq!(
        next_step(&mut last, 9, 0xfff, 1000, 3_000).unwrap(),
        QubitSnowflakeStep::Emit { timestamp: 9, sequence: 0 }
    );
}

#[test]
fn exhausted_sequence_waits_for_a_later_timestamp() {
    let mut last = TimeSlice { timestamp: 7, sequence: 0xfff };
    assert_eq!(
        next_step(&mut last, 7, 0xfff, 1, 3_000).unwrap(),
        QubitSnowflakeStep::AwaitLaterThan(7)
    );
    assert_eq!(last, TimeSlice { timestamp: 7, sequence: 0xfff });
    assert_eq!(settle_later(&mut last, 8), TimeSlice { timestamp: 8, sequence: 0 });
    assert_eq!(last, TimeSlice { timestamp: 8, sequence: 0 });
}

#[test]
fn rollback_sleeps_within_tolerance_and_fails_beyond_it() {
    let mut last = TimeSlice { timestamp: 10, sequence: 3 };
    assert_eq!(
        next_step(&mut last, 8, 0x3f_ffff, 1000, 3_000).unwrap(),
        QubitSnowflakeStep::SleepMillis(2_000)
    );
    assert_eq!(last, TimeSlice { timestamp: 10, sequence: 3 });
    assert!(matches!(
        next_step(&mut last, 6, 0x3f_ffff, 1000, 3_000),
        Err(IdError::ClockMovedBackwards {
            last_elapsed: 10_000_000_000,
            current_elapsed: 6_000_000_000,
            skew: 4_000_000_000,
            max_skew: 3_000_000_000,
        })
    ));
    assert_eq!(last, TimeSlice { timestamp: 10, sequence: 3 });
}

#[test]
fn handed_out_ids_are_distinct_and_increasing() {
    let builder = QubitSnowflakeBuilder::new(IdMode::Sequential, TimestampPrecision::Millisecond, 3).unwrap();
    let mut last = TimeSlice::new(0);
    let mut ids = Vec::new();
    for timestamp in [5_u64, 5, 5, 6, 6, 9] {
        match next_step(&mut last, timestamp, builder.max_sequence(), 1, 3_000).unwrap() {
            QubitSnowflakeStep::Emit { timestamp, sequence } => {
                ids.push(builder.build(timestamp, sequence).unwrap());
            }
            other => panic!("unexpected step {other:?}"),
        }
    }
    let slice = settle_later(&mut last, 12);
    ids.push(builder.build(slice.timestamp, slice.sequence).unwrap());
    for pair in ids.windows(2) {
        assert!(pair[0] < pair[1]);
    }
}
