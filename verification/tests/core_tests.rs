use qubit_id::snowflake::internal::expiration_time::{
    expiration_time, validate_generator_epoch, validate_generator_lifetime,
};
use qubit_id::snowflake::internal::clock_observation::ClockObservation;
use qubit_id::snowflake::internal::generation_state::GenerationState;
use qubit_id::snowflake::internal::restart_fence::RestartFence;
use qubit_id::snowflake::internal::time_slice::TimeSlice;
use qubit_id::{
    ClassicalSnowflakeLayout, GenerationAttempt, IdGenerationError, IdMode, RestartPolicy,
    SnowflakeCore, SnowflakeLayout, TimestampPrecision,
};

const MILLI: i128 = 1_000_000;

fn classical_core(policy: RestartPolicy, max_clock_skew: u128) -> SnowflakeCore<ClassicalSnowflakeLayout> {
    let layout = ClassicalSnowflakeLayout::new(7).unwrap();
    SnowflakeCore::configure(layout, 0, max_clock_skew, policy, 50 * MILLI).unwrap()
}

fn generated(attempt: Result<GenerationAttempt<u64>, IdGenerationError>) -> u64 {
    match attempt {
        Ok(GenerationAttempt::Generated(id)) => id,
        Ok(GenerationAttempt::RetryAfter { delay }) => panic!("deferred by {delay} ns"),
        Err(error) => panic!("failed: {error:?}"),
    }
}

#[test]
fn immediate_core_generates_at_once_and_counts_sequences() {
    let mut core = classical_core(RestartPolicy::Immediate, 5 * MILLI as u128);
    let now = 100 * MILLI + 300_000;
    let first = generated(core.try_generate(now));
    assert_eq!(first, (100 << 22) | (7 << 12));
    let second = generated(core.try_generate(now));
    assert_eq!(second, (100 << 22) | (7 << 12) | 1);
    let later = generated(core.try_generate(101 * MILLI));
    assert_eq!(later, (101 << 22) | (7 << 12));
    assert!(first < second && second < later);
}

#[test]
fn rollback_within_tolerance_waits_and_beyond_it_fails() {
    let mut core = classical_core(RestartPolicy::Immediate, 5 * MILLI as u128);
    let now = 100 * MILLI;
    generated(core.try_generate(now));
    assert!(matches!(
        core.try_generate(now - 2 * MILLI),
        Ok(GenerationAttempt::RetryAfter { delay: 2_000_000 })
    ));
    assert!(matches!(
        core.try_generate(now - 10 * MILLI),
        Err(IdGenerationError::ClockMovedBackwards {
            last_elapsed: 100_000_000,
            current_elapsed: 90_000_000,
            skew: 10_000_000,
            max_skew: 5_000_000,
        })
    ));
    assert_eq!(generated(core.try_generate(now)), (100 << 22) | (7 << 12) | 1);
}

#[test]
fn exhausted_sequence_waits_for_next_slice() {
    let mut core = classical_core(RestartPolicy::Immediate, 0);
    let now = 100 * MILLI + 300_000;
    let mut previous = None;
    for _ in 0..4096 {
        let id = generated(core.try_generate(now));
        if let Some(previous) = previous {
            assert!(id > previous);
        }
        previous = Some(id);
    }
    assert!(matches!(
        core.try_generate(now),
        Ok(GenerationAttempt::RetryAfter { delay: 700_000 })
    ));
    assert_eq!(generated(core.try_generate(101 * MILLI)), (101 << 22) | (7 << 12));
}

#[test]
fn wait_next_slice_skips_first_observed_slice() {
    let mut core = classical_core(RestartPolicy::WaitNextSlice, 0);
    assert!(matches!(
        core.try_generate(100 * MILLI + 250_000),
        Ok(GenerationAttempt::RetryAfter { delay: 750_000 })
    ));
    assert!(matches!(
        core.try_generate(100 * MILLI + 900_000),
        Ok(GenerationAttempt::RetryAfter { delay: 100_000 })
    ));
    assert_eq!(generated(core.try_generate(101 * MILLI)), (101 << 22) | (7 << 12));
}

#[test]
fn attempts_outside_the_lifetime_fail() {
    let layout = ClassicalSnowflakeLayout::new(7).unwrap();
    let mut core = SnowflakeCore::configure(layout, 1_000 * MILLI, 0, RestartPolicy::Immediate, 1_000 * MILLI).unwrap();
    assert_eq!(core.epoch(), 1_000 * MILLI);
    assert_eq!(core.expires_at(), 1_000 * MILLI + 2_199_023_255_552_000_000);
    assert_eq!(core.max_clock_skew(), 0);
    assert_eq!(core.layout().node_id(), 7);
    assert!(matches!(
        core.try_generate(500 * MILLI),
        Err(IdGenerationError::TimeBeforeEpoch { time: 500_000_000, epoch: 1_000_000_000 })
    ));
    let expires_at = core.expires_at();
    assert!(matches!(
        core.try_generate(expires_at),
        Err(IdGenerationError::GeneratorExpired { observed_at, expires_at: boundary }) if observed_at == expires_at && boundary == expires_at
    ));
    let last = generated(core.try_generate(expires_at - 1));
    assert_eq!(last >> 22, (1 << 41) - 1);
}

#[test]
fn configure_rejects_future_epoch_expired_and_unrepresentable_lifetimes() {
    let layout = ClassicalSnowflakeLayout::new(7).unwrap();
    assert!(matches!(
        SnowflakeCore::configure(layout, 10, 0, RestartPolicy::Immediate, 5),
        Err(IdGenerationError::EpochAhead { epoch: 10, current_time: 5 })
    ));
    assert!(matches!(
        SnowflakeCore::configure(layout, 0, 0, RestartPolicy::Immediate, 2_199_023_255_552_000_000),
        Err(IdGenerationError::GeneratorExpired { observed_at: 2_199_023_255_552_000_000, expires_at: 2_199_023_255_552_000_000 })
    ));
    let late = qubit_id::wall_time::WALL_TIME_MAX - 10;
    assert!(matches!(
        SnowflakeCore::configure(layout, late, 0, RestartPolicy::Immediate, late),
        Err(IdGenerationError::ExpirationTimeOverflow { origin, time_unit: 1_000_000, .. }) if origin == late
    ));
}

#[test]
fn compose_at_encodes_wall_time() {
    let layout = SnowflakeLayout::new(IdMode::Sequential, TimestampPrecision::Second, 7).unwrap();
    let core = SnowflakeCore::configure(layout.clone(), 0, 0, RestartPolicy::Immediate, 0).unwrap();
    assert_eq!(core.compose_at(42 * 1_000_000_000 + 999, 3).unwrap(), layout.compose_raw(42, 3).unwrap());
    assert!(matches!(core.compose_at(-1, 0), Err(IdGenerationError::TimeBeforeEpoch { time: -1, epoch: 0 })));
    assert!(matches!(
        core.compose_at(0, 1 << 22),
        Err(IdGenerationError::SequenceOverflow { .. })
    ));
    assert!(matches!(
        core.compose_at(core.expires_at(), 0),
        Err(IdGenerationError::GeneratorExpired { .. })
    ));
}

#[test]
fn generated_ids_of_one_core_are_distinct_across_clock_changes() {
    let layout = SnowflakeLayout::new(IdMode::Spread, TimestampPrecision::Millisecond, 3).unwrap();
    let mut core = SnowflakeCore::configure(layout, 0, 5 * MILLI as u128, RestartPolicy::Immediate, 0).unwrap();
    let mut seen = std::collections::BTreeSet::new();
    let times = [10, 10, 11, 9, 11, 12, 12, 8, 12, 30, 29, 30, 31];
    for time in times {
        if let Ok(GenerationAttempt::Generated(id)) = core.try_generate(time * MILLI) {
            assert!(seen.insert(id));
            assert!(id > i64::MAX as u64);
        }
    }
    assert!(seen.len() >= 8);
}

#[test]
fn expiration_and_lifetime_checks() {
    assert_eq!(expiration_time(0, 1_000_000_000, (1 << 31) - 1).unwrap(), 2_147_483_648_000_000_000);
    assert!(matches!(
        expiration_time(0, u128::MAX, 1),
        Err(IdGenerationError::ExpirationTimeOverflow { origin: 0, max_timestamp: 1, .. })
    ));
    assert!(matches!(
        expiration_time(0, 1_000_000_000, u64::MAX),
        Err(IdGenerationError::ExpirationTimeOverflow { .. })
    ));
    assert!(validate_generator_epoch(5, 5).is_ok());
    assert!(matches!(validate_generator_epoch(6, 5), Err(IdGenerationError::EpochAhead { epoch: 6, current_time: 5 })));
    assert!(validate_generator_lifetime(0, 10, 9).is_ok());
    assert!(matches!(
        validate_generator_lifetime(0, 10, 10),
        Err(IdGenerationError::GeneratorExpired { observed_at: 10, expires_at: 10 })
    ));
}

#[test]
fn clock_observation_quantizes_time() {
    let observation = ClockObservation::from_time(2_500_000, 0, 1_000_000, 100).unwrap();
    assert_eq!(observation, ClockObservation { elapsed: 2_500_000, timestamp: 2, retry_after: 500_000 });
    let boundary = ClockObservation::from_time(3_000_000, 0, 1_000_000, 100).unwrap();
    assert_eq!(boundary.retry_after, 1_000_000);
    assert!(matches!(
        ClockObservation::from_time(-1, 0, 1_000_000, 100),
        Err(IdGenerationError::TimeBeforeEpoch { time: -1, epoch: 0 })
    ));
}

#[test]
fn restart_fence_and_state_transitions() {
    let mut fence = RestartFence::new(RestartPolicy::WaitNextSlice);
    assert!(fence.should_wait(5));
    assert_eq!(fence, RestartFence::Waiting { baseline_timestamp: 5 });
    assert!(fence.should_wait(5));
    assert!(!fence.should_wait(6));
    assert_eq!(fence, RestartFence::Disabled);
    assert!(!RestartFence::new(RestartPolicy::Immediate).should_wait(0));
    assert_eq!(RestartPolicy::default(), RestartPolicy::Immediate);

    let mut state = GenerationState::new(RestartPolicy::Immediate);
    let observation = ClockObservation { elapsed: 5_000, timestamp: 5, retry_after: 100 };
    assert!(matches!(
        state.reserve(observation, 1, 0),
        Ok(GenerationAttempt::Generated(TimeSlice { timestamp: 5, sequence: 0 }))
    ));
    assert!(matches!(
        state.reserve(observation, 1, 0),
        Ok(GenerationAttempt::Generated(TimeSlice { timestamp: 5, sequence: 1 }))
    ));
    assert!(matches!(state.reserve(observation, 1, 0), Ok(GenerationAttempt::RetryAfter { delay: 100 })));
    assert_eq!(TimeSlice::new(9), TimeSlice { timestamp: 9, sequence: 0 });
}

#[test]
fn generation_attempt_and_outcome_map_values() {
    let attempt: GenerationAttempt<u64> = GenerationAttempt::Generated(4);
    assert_eq!(attempt.map(|value| value * 2), GenerationAttempt::Generated(8));
    let retry: GenerationAttempt<u64> = GenerationAttempt::RetryAfter { delay: 9 };
    assert_eq!(retry.map(|value| value * 2), GenerationAttempt::RetryAfter { delay: 9 });
    let outcome: qubit_id::GenerationOutcome<u64> = qubit_id::GenerationOutcome::Generated(3);
    assert_eq!(outcome.map(|value| value + 1), qubit_id::GenerationOutcome::Generated(4));
    let waiting: qubit_id::GenerationOutcome<u64> = qubit_id::GenerationOutcome::RetryAfter(7);
    assert_eq!(waiting.map(|value| value + 1), qubit_id::GenerationOutcome::RetryAfter(7));
}

#[test]
fn classical_generated_ids_stay_below_sign_bit_and_decode_to_node() {
    let mut core = classical_core(RestartPolicy::Immediate, 0);
    for step in 0..5_i128 {
        let id = generated(core.try_generate(200 * MILLI + step * 400_000));
        assert!(id <= i64::MAX as u64);
        let parts = ClassicalSnowflakeLayout::decode_raw(id);
        assert_eq!(parts.node_id(), 7);
    }
}
