//! Shared allocation state of Snowflake-family generators.

use vstd::prelude::*;

use super::clock_observation::ClockObservation;
use super::restart_fence::RestartFence;
use super::time_slice::TimeSlice;
use crate::generation_attempt::GenerationAttempt;
use crate::id_generation_error::IdGenerationError;
use crate::restart_policy::RestartPolicy;

verus! {

/// High-water and sequence state of one generator.
#[derive(Debug)]
pub struct GenerationState {
    /// Greatest raw elapsed time observed without rollback.
    pub last_observed_elapsed: Option<u128>,
    /// Last allocated logical slice and sequence.
    pub time_slice: Option<TimeSlice>,
    /// First-allocation restart fence.
    pub restart_fence: RestartFence,
}

/// The outcome of one reservation: the state afterwards and what the caller
/// gets.
pub type Reservation = (GenerationState, Result<GenerationAttempt<TimeSlice>, IdGenerationError>);

impl GenerationState {
    /// The reserved sequence never exceeds `max_sequence`.
    pub open spec fn wf_for(&self, max_sequence: u64) -> bool {
        self.time_slice matches Some(slice) ==> slice.sequence <= max_sequence
    }

    /// The reserved slice lies at or before the slice of the high-water
    /// mark, for slices of `time_unit` nanoseconds.
    pub open spec fn below_watermark(&self, time_unit: u128) -> bool {
        self.time_slice matches Some(slice) ==> (self.last_observed_elapsed matches Some(last)
            && slice.timestamp <= last / time_unit)
    }

    /// One reservation at `observation`.
    ///
    /// A raw rollback of the clock below the greatest elapsed time observed
    /// so far changes nothing: within `max_clock_skew` the caller retries
    /// after the rollback, beyond it the caller gets
    /// [`IdGenerationError::ClockMovedBackwards`]. Otherwise the observation
    /// becomes the high-water mark and the restart fence sees it; while the
    /// fence holds, the caller retries at the next slice. Past the fence the
    /// first reservation, and the first in a later slice, takes sequence
    /// zero of the observed slice; a further one in the current slice takes
    /// the next sequence, or retries at the next slice when none is left.
    pub open spec fn spec_reserve(
        self,
        observation: ClockObservation,
        max_sequence: u64,
        max_clock_skew: u128,
    ) -> Reservation {
        let retry = Ok(GenerationAttempt::RetryAfter { delay: observation.retry_after });
        let rolled_back = match self.last_observed_elapsed {
            Some(last) => observation.elapsed < last,
            None => false,
        };
        if rolled_back {
            let last = self.last_observed_elapsed.unwrap();
            let skew = (last - observation.elapsed) as u128;
            if skew > max_clock_skew {
                (
                    self,
                    Err(
                        IdGenerationError::ClockMovedBackwards {
                            last_elapsed: last,
                            current_elapsed: observation.elapsed,
                            skew,
                            max_skew: max_clock_skew,
                        },
                    ),
                )
            } else {
                (self, Ok(GenerationAttempt::RetryAfter { delay: skew }))
            }
        } else {
            let observed = GenerationState {
                last_observed_elapsed: Some(observation.elapsed),
                time_slice: self.time_slice,
                restart_fence: self.restart_fence.after(observation.timestamp),
            };
            let fresh = TimeSlice { timestamp: observation.timestamp, sequence: 0 };
            if self.restart_fence.holds_at(observation.timestamp) {
                (observed, retry)
            } else {
                match self.time_slice {
                    Some(slice) if observation.timestamp <= slice.timestamp => {
                        if slice.sequence == max_sequence {
                            (observed, retry)
                        } else {
                            let next = TimeSlice {
                                timestamp: slice.timestamp,
                                sequence: (slice.sequence + 1) as u64,
                            };
                            (
                                GenerationState { time_slice: Some(next), ..observed },
                                Ok(GenerationAttempt::Generated(next)),
                            )
                        }
                    },
                    _ => (
                        GenerationState { time_slice: Some(fresh), ..observed },
                        Ok(GenerationAttempt::Generated(fresh)),
                    ),
                }
            }
        }
    }

    /// Creates empty allocation state for `restart_policy`.
    pub fn new(restart_policy: RestartPolicy) -> (state: Self)
        ensures
            state.last_observed_elapsed is None,
            state.time_slice is None,
            state.restart_fence == (match restart_policy {
                RestartPolicy::Immediate => RestartFence::Disabled,
                RestartPolicy::WaitNextSlice => RestartFence::Uninitialized,
            }),
    {
        GenerationState {
            last_observed_elapsed: None,
            time_slice: None,
            restart_fence: RestartFence::new(restart_policy),
        }
    }

    /// Reserves a timestamp and sequence without blocking.
    ///
    /// Raw clock rollback is checked before logical timestamps are compared.
    /// A tolerated rollback leaves all state unchanged so allocation cannot
    /// resume until wall time catches up to the greatest observed value.
    ///
    /// # Errors
    ///
    /// Returns [`IdGenerationError::ClockMovedBackwards`] when raw rollback
    /// exceeds the configured tolerance.
    pub fn reserve(
        &mut self,
        observation: ClockObservation,
        max_sequence: u64,
        max_clock_skew: u128,
    ) -> (attempt: Result<GenerationAttempt<TimeSlice>, IdGenerationError>)
        requires
            old(self).wf_for(max_sequence),
        ensures
            (*final(self), attempt) == old(self).spec_reserve(
                observation,
                max_sequence,
                max_clock_skew,
            ),
            final(self).wf_for(max_sequence),
    {
        if let Some(last_elapsed) = self.last_observed_elapsed {
            if observation.elapsed < last_elapsed {
                let skew = last_elapsed - observation.elapsed;
                if skew > max_clock_skew {
                    return Err(
                        IdGenerationError::ClockMovedBackwards {
                            last_elapsed,
                            current_elapsed: observation.elapsed,
                            skew,
                            max_skew: max_clock_skew,
                        },
                    );
                }
                return Ok(GenerationAttempt::RetryAfter { delay: skew });
            }
        }
        self.last_observed_elapsed = Some(observation.elapsed);
        if self.restart_fence.should_wait(observation.timestamp) {
            return Ok(GenerationAttempt::RetryAfter { delay: observation.retry_after });
        }
        match self.time_slice {
            None => {
                let time_slice = TimeSlice::new(observation.timestamp);
                self.time_slice = Some(time_slice);
                Ok(GenerationAttempt::Generated(time_slice))
            },
            Some(time_slice) => {
                if observation.timestamp > time_slice.timestamp {
                    let fresh = TimeSlice::new(observation.timestamp);
                    self.time_slice = Some(fresh);
                    return Ok(GenerationAttempt::Generated(fresh));
                }
                if time_slice.sequence == max_sequence {
                    return Ok(GenerationAttempt::RetryAfter { delay: observation.retry_after });
                }
                let next = TimeSlice {
                    timestamp: time_slice.timestamp,
                    sequence: time_slice.sequence + 1,
                };
                self.time_slice = Some(next);
                Ok(GenerationAttempt::Generated(next))
            },
        }
    }
}

/// Reserved slices only move forward: a generated slice comes strictly after
/// the previously reserved one, becomes the reserved one, and keeps its
/// sequence within bounds; any other outcome keeps the reserved slice.
pub proof fn lemma_reserve_advances(
    state: GenerationState,
    observation: ClockObservation,
    max_sequence: u64,
    max_clock_skew: u128,
)
    requires
        state.wf_for(max_sequence),
    ensures
        ({
            let (next, attempt) = state.spec_reserve(observation, max_sequence, max_clock_skew);
            &&& next.wf_for(max_sequence)
            &&& match attempt {
                Ok(GenerationAttempt::Generated(slice)) => {
                    &&& next.time_slice == Some(slice)
                    &&& (state.time_slice matches Some(previous) ==> previous.precedes(slice))
                    &&& (slice.timestamp == observation.timestamp || (state.time_slice matches Some(
                        previous,
                    ) && slice.timestamp == previous.timestamp && observation.timestamp
                        <= previous.timestamp))
                },
                _ => next.time_slice == state.time_slice,
            }
        }),
{
}

/// For observations whose slice is their elapsed time divided by
/// `time_unit`, a reserved slice never runs ahead of the high-water mark,
/// so a generated slice always carries the observed timestamp.
pub proof fn lemma_reserve_follows_observation(
    state: GenerationState,
    observation: ClockObservation,
    max_sequence: u64,
    max_clock_skew: u128,
    time_unit: u128,
)
    requires
        time_unit > 0,
        observation.timestamp == observation.elapsed / time_unit,
        state.below_watermark(time_unit),
    ensures
        ({
            let (next, attempt) = state.spec_reserve(observation, max_sequence, max_clock_skew);
            &&& next.below_watermark(time_unit)
            &&& attempt matches Ok(GenerationAttempt::Generated(slice)) ==> slice.timestamp
                == observation.timestamp
        }),
{
    if let Some(last) = state.last_observed_elapsed {
        if observation.elapsed >= last {
            vstd::arithmetic::div_mod::lemma_div_is_ordered(
                last as int,
                observation.elapsed as int,
                time_unit as int,
            );
        }
    }
}

/// `states` are the states that reserving at each of `observations` in turn
/// passes through, from a first state whose sequence is within bounds.
pub open spec fn reservation_history(
    states: Seq<GenerationState>,
    observations: Seq<ClockObservation>,
    max_sequence: u64,
    max_clock_skew: u128,
) -> bool {
    &&& states.len() == observations.len() + 1
    &&& states[0].wf_for(max_sequence)
    &&& forall|k: int|
        0 <= k < observations.len() ==> states[k + 1] == (#[trigger] states[k].spec_reserve(
            observations[k],
            max_sequence,
            max_clock_skew,
        )).0
}

/// The slice that the `k`-th reservation of a history generated, if it
/// generated one.
pub open spec fn generated_at(
    states: Seq<GenerationState>,
    observations: Seq<ClockObservation>,
    max_sequence: u64,
    max_clock_skew: u128,
    k: int,
) -> Option<TimeSlice> {
    match states[k].spec_reserve(observations[k], max_sequence, max_clock_skew).1 {
        Ok(GenerationAttempt::Generated(slice)) => Some(slice),
        _ => None,
    }
}

/// Every state of a history keeps its sequence within bounds.
proof fn lemma_history_wf(
    states: Seq<GenerationState>,
    observations: Seq<ClockObservation>,
    max_sequence: u64,
    max_clock_skew: u128,
    k: int,
)
    requires
        reservation_history(states, observations, max_sequence, max_clock_skew),
        0 <= k < states.len(),
    ensures
        states[k].wf_for(max_sequence),
    decreases k,
{
    if k > 0 {
        lemma_history_wf(states, observations, max_sequence, max_clock_skew, k - 1);
        let _ = states[k - 1].spec_reserve(observations[k - 1], max_sequence, max_clock_skew);
        lemma_reserve_advances(states[k - 1], observations[k - 1], max_sequence, max_clock_skew);
    }
}

/// After the `i`-th reservation generated `slice`, every later state holds
/// that slice or a later one.
proof fn lemma_history_keeps_slice(
    states: Seq<GenerationState>,
    observations: Seq<ClockObservation>,
    max_sequence: u64,
    max_clock_skew: u128,
    i: int,
    k: int,
    slice: TimeSlice,
)
    requires
        reservation_history(states, observations, max_sequence, max_clock_skew),
        0 <= i < k < states.len(),
        generated_at(states, observations, max_sequence, max_clock_skew, i) == Some(slice),
    ensures
        states[k].time_slice matches Some(held) && (held == slice || slice.precedes(held)),
    decreases k,
{
    let _ = states[k - 1].spec_reserve(observations[k - 1], max_sequence, max_clock_skew);
    lemma_history_wf(states, observations, max_sequence, max_clock_skew, k - 1);
    lemma_reserve_advances(states[k - 1], observations[k - 1], max_sequence, max_clock_skew);
    if k - 1 > i {
        lemma_history_keeps_slice(states, observations, max_sequence, max_clock_skew, i, k - 1, slice);
    }
}

/// A slice that a state of a history holds was held by its first state or
/// generated by an earlier reservation.
proof fn lemma_history_slice_origin(
    states: Seq<GenerationState>,
    observations: Seq<ClockObservation>,
    max_sequence: u64,
    max_clock_skew: u128,
    k: int,
    held: TimeSlice,
)
    requires
        reservation_history(states, observations, max_sequence, max_clock_skew),
        0 <= k < states.len(),
        states[k].time_slice == Some(held),
    ensures
        states[0].time_slice == Some(held) || exists|i: int|
            0 <= i < k && #[trigger] generated_at(
                states,
                observations,
                max_sequence,
                max_clock_skew,
                i,
            ) == Some(held),
    decreases k,
{
    if k > 0 {
        let _ = states[k - 1].spec_reserve(observations[k - 1], max_sequence, max_clock_skew);
        lemma_history_wf(states, observations, max_sequence, max_clock_skew, k - 1);
        lemma_reserve_advances(states[k - 1], observations[k - 1], max_sequence, max_clock_skew);
        if generated_at(states, observations, max_sequence, max_clock_skew, k - 1) == Some(held) {
        } else {
            lemma_history_slice_origin(
                states,
                observations,
                max_sequence,
                max_clock_skew,
                k - 1,
                held,
            );
        }
    }
}

/// Across any number of reservations on one state, a slice generated later
/// comes strictly after one generated earlier, so no slice is generated
/// twice, and every generated sequence stays within bounds.
pub proof fn lemma_reservation_history_ordered(
    states: Seq<GenerationState>,
    observations: Seq<ClockObservation>,
    max_sequence: u64,
    max_clock_skew: u128,
    i: int,
    j: int,
)
    requires
        reservation_history(states, observations, max_sequence, max_clock_skew),
        0 <= i < j < observations.len(),
        generated_at(states, observations, max_sequence, max_clock_skew, i) is Some,
        generated_at(states, observations, max_sequence, max_clock_skew, j) is Some,
    ensures
        ({
            let earlier = generated_at(states, observations, max_sequence, max_clock_skew, i)->0;
            let later = generated_at(states, observations, max_sequence, max_clock_skew, j)->0;
            &&& earlier.precedes(later)
            &&& later.sequence <= max_sequence
        }),
{
    let earlier = generated_at(states, observations, max_sequence, max_clock_skew, i)->0;
    lemma_history_keeps_slice(states, observations, max_sequence, max_clock_skew, i, j, earlier);
    lemma_history_wf(states, observations, max_sequence, max_clock_skew, j);
    lemma_reserve_advances(states[j], observations[j], max_sequence, max_clock_skew);
}

/// A slice generated at a timestamp beyond every slice reserved before it
/// (by the first state or an earlier reservation of the history) starts at
/// sequence zero.
pub proof fn lemma_reservation_history_fresh_slice(
    states: Seq<GenerationState>,
    observations: Seq<ClockObservation>,
    max_sequence: u64,
    max_clock_skew: u128,
    j: int,
    slice: TimeSlice,
)
    requires
        reservation_history(states, observations, max_sequence, max_clock_skew),
        0 <= j < observations.len(),
        generated_at(states, observations, max_sequence, max_clock_skew, j) == Some(slice),
        states[0].time_slice matches Some(first) ==> first.timestamp < slice.timestamp,
        forall|i: int|
            0 <= i < j && (#[trigger] generated_at(
                states,
                observations,
                max_sequence,
                max_clock_skew,
                i,
            )) is Some ==> generated_at(states, observations, max_sequence, max_clock_skew, i)->0.timestamp
                < slice.timestamp,
    ensures
        slice.sequence == 0,
{
    lemma_history_wf(states, observations, max_sequence, max_clock_skew, j);
    lemma_reserve_advances(states[j], observations[j], max_sequence, max_clock_skew);
    if let Some(held) = states[j].time_slice {
        lemma_history_slice_origin(states, observations, max_sequence, max_clock_skew, j, held);
    }
}

/// A deferred reservation asks for a positive wait whenever the observation
/// leaves a positive time to the next slice.
pub proof fn lemma_reserve_retry_is_positive(
    state: GenerationState,
    observation: ClockObservation,
    max_sequence: u64,
    max_clock_skew: u128,
)
    requires
        observation.retry_after > 0,
    ensures
        state.spec_reserve(observation, max_sequence, max_clock_skew).1 matches Ok(
            GenerationAttempt::RetryAfter { delay },
        ) ==> delay > 0,
{
}

/// A clock that reads below the greatest elapsed time observed so far leaves
/// the state unchanged; the caller waits out a rollback within the tolerance
/// and gets [`IdGenerationError::ClockMovedBackwards`], with a skew above
/// the tolerance, for a larger one.
pub proof fn lemma_rollback_keeps_state(
    state: GenerationState,
    observation: ClockObservation,
    max_sequence: u64,
    max_clock_skew: u128,
    last_elapsed: u128,
)
    requires
        state.last_observed_elapsed == Some(last_elapsed),
        observation.elapsed < last_elapsed,
    ensures
        ({
            let (next, attempt) = state.spec_reserve(observation, max_sequence, max_clock_skew);
            let skew = last_elapsed - observation.elapsed;
            &&& next == state
            &&& skew <= max_clock_skew ==> attempt == Ok::<
                GenerationAttempt<TimeSlice>,
                IdGenerationError,
            >(GenerationAttempt::RetryAfter { delay: skew as u128 })
            &&& skew > max_clock_skew ==> (attempt matches Err(
                IdGenerationError::ClockMovedBackwards { skew: s, max_skew, .. },
            ) && s > max_skew && s == skew && max_skew == max_clock_skew)
        }),
{
}

/// Under [`RestartPolicy::Immediate`] the first reservation succeeds at once,
/// with sequence zero of the observed slice.
pub proof fn lemma_immediate_first_reservation(
    observation: ClockObservation,
    max_sequence: u64,
    max_clock_skew: u128,
)
    ensures
        ({
            let fresh = GenerationState {
                last_observed_elapsed: None,
                time_slice: None,
                restart_fence: RestartFence::Disabled,
            };
            fresh.spec_reserve(observation, max_sequence, max_clock_skew).1 == Ok::<
                GenerationAttempt<TimeSlice>,
                IdGenerationError,
            >(
                GenerationAttempt::Generated(
                    TimeSlice { timestamp: observation.timestamp, sequence: 0 },
                ),
            )
        }),
{
}

/// Under [`RestartPolicy::WaitNextSlice`] the first reservation waits, and
/// after it nothing is reserved until a later slice is observed.
pub proof fn lemma_wait_next_slice_skips_first_slice(
    first: ClockObservation,
    later: ClockObservation,
    max_sequence: u64,
    max_clock_skew: u128,
)
    ensures
        ({
            let fresh = GenerationState {
                last_observed_elapsed: None,
                time_slice: None,
                restart_fence: RestartFence::Uninitialized,
            };
            let (waited, attempt) = fresh.spec_reserve(first, max_sequence, max_clock_skew);
            let (_, second) = waited.spec_reserve(later, max_sequence, max_clock_skew);
            &&& attempt matches Ok(GenerationAttempt::RetryAfter { .. })
            &&& waited.time_slice is None
            &&& (second matches Ok(GenerationAttempt::Generated(_))) ==> later.timestamp
                > first.timestamp
        }),
{
}

} // verus!
