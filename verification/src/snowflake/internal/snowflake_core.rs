//! Shared, non-waiting Snowflake allocation core.

use vstd::prelude::*;

use super::clock_observation::ClockObservation;
use super::expiration_time::{
    expiration_time, lifetime_nanos, spec_expiration_time, validate_generator_epoch,
    validate_generator_lifetime,
};
use super::generation_state::{lemma_reserve_follows_observation, GenerationState};
use super::restart_fence::RestartFence;
use super::snowflake_layout_spec::SnowflakeLayoutSpec;
use super::time_slice::TimeSlice;
use crate::generation_attempt::GenerationAttempt;
use crate::id_generation_error::IdGenerationError;
use crate::restart_policy::RestartPolicy;
use crate::wall_time::is_wall_time;

verus! {

/// A timestamp unit count below the lifetime bound gives a fitting
/// timestamp.
proof fn lemma_slice_within_lifetime(elapsed: int, unit: int, max_timestamp: int)
    requires
        0 <= elapsed < unit * (max_timestamp + 1),
        unit > 0,
        max_timestamp >= 0,
    ensures
        elapsed / unit <= max_timestamp,
{
    let q = elapsed / unit;
    assert(unit * q + elapsed % unit == elapsed) by (nonlinear_arith)
        requires
            unit > 0,
            q == elapsed / unit,
    ;
    assert(elapsed % unit >= 0) by (nonlinear_arith)
        requires
            unit > 0,
    ;
    if q > max_timestamp {
        assert(unit * q >= unit * (max_timestamp + 1)) by (nonlinear_arith)
            requires
                q >= max_timestamp + 1,
                unit > 0,
        ;
    }
}

/// Whether `id` is the ID of a fitting pair at or before `reserved`.
pub open spec fn id_at_or_before<L: SnowflakeLayoutSpec>(
    layout: L,
    id: u64,
    reserved: Option<TimeSlice>,
) -> bool {
    exists|timestamp: u64, sequence: u64|
        #![trigger layout.spec_id(timestamp, sequence)]
        {
            &&& timestamp <= layout.spec_max_timestamp()
            &&& sequence <= layout.spec_max_sequence()
            &&& layout.spec_id(timestamp, sequence) == id
            &&& reserved matches Some(slice) && !slice.precedes(TimeSlice { timestamp, sequence })
        }
}

/// An ID composed from a slice that comes after every slice reserved before
/// is new, and afterwards every generated ID lies at or before that slice.
proof fn lemma_fresh_id<L: SnowflakeLayoutSpec>(
    layout: L,
    previous: Option<TimeSlice>,
    before: Set<u64>,
    slice: TimeSlice,
    id: u64,
)
    requires
        layout.layout_wf(),
        previous matches Some(p) ==> p.precedes(slice),
        slice.timestamp <= layout.spec_max_timestamp(),
        slice.sequence <= layout.spec_max_sequence(),
        id == layout.spec_id(slice.timestamp, slice.sequence),
        forall|other: u64| #[trigger] before.contains(other) ==> id_at_or_before(layout, other, previous),
    ensures
        !before.contains(id),
        layout.spec_time_ordered() ==> forall|other: u64| #[trigger]
            before.contains(other) ==> other < id,
        forall|other: u64| #[trigger] before.insert(id).contains(other) ==> id_at_or_before(
            layout,
            other,
            Some(slice),
        ),
{
    if before.contains(id) {
        assert(id_at_or_before(layout, id, previous));
        let (timestamp, sequence) = choose|timestamp: u64, sequence: u64|
            {
                &&& timestamp <= layout.spec_max_timestamp()
                &&& sequence <= layout.spec_max_sequence()
                &&& #[trigger] layout.spec_id(timestamp, sequence) == id
                &&& previous matches Some(p) && !p.precedes(TimeSlice { timestamp, sequence })
            };
        layout.lemma_id_injective(timestamp, sequence, slice.timestamp, slice.sequence);
        assert(false);
    }
    if layout.spec_time_ordered() {
        assert forall|other: u64| #[trigger] before.contains(other) implies other < id by {
            assert(id_at_or_before(layout, other, previous));
            let (timestamp, sequence) = choose|timestamp: u64, sequence: u64|
                {
                    &&& timestamp <= layout.spec_max_timestamp()
                    &&& sequence <= layout.spec_max_sequence()
                    &&& #[trigger] layout.spec_id(timestamp, sequence) == other
                    &&& previous matches Some(p) && !p.precedes(TimeSlice { timestamp, sequence })
                };
            layout.lemma_id_increasing(timestamp, sequence, slice.timestamp, slice.sequence);
        }
    }
    assert forall|other: u64| #[trigger] before.insert(id).contains(other) implies id_at_or_before(
        layout,
        other,
        Some(slice),
    ) by {
        if other == id {
            assert(layout.spec_id(slice.timestamp, slice.sequence) == other);
        } else {
            assert(id_at_or_before(layout, other, previous));
            let (timestamp, sequence) = choose|timestamp: u64, sequence: u64|
                {
                    &&& timestamp <= layout.spec_max_timestamp()
                    &&& sequence <= layout.spec_max_sequence()
                    &&& #[trigger] layout.spec_id(timestamp, sequence) == other
                    &&& previous matches Some(p) && !p.precedes(TimeSlice { timestamp, sequence })
                };
            assert(layout.spec_id(timestamp, sequence) == other);
        }
    }
}

/// Owns a Snowflake layout, its time configuration and its allocation
/// state, and decides every allocation attempt.
///
/// The core does not read a clock, lock or wait: each attempt is handed the
/// wall time it observes, and a deferred attempt names how long to wait
/// before the next one.
pub struct SnowflakeCore<L> {
    /// Bit layout used to compose generated IDs.
    layout: L,
    /// Timestamp origin, in nanoseconds since the Unix epoch.
    epoch: i128,
    /// Exclusive timestamp expiration boundary.
    expires_at: i128,
    /// Maximum tolerated raw wall-clock rollback, in nanoseconds.
    max_clock_skew: u128,
    /// Raw-clock and sequence allocation state.
    state: GenerationState,
    /// Every ID this core has generated.
    issued: Ghost<Set<u64>>,
}

impl<L: SnowflakeLayoutSpec> SnowflakeCore<L> {
    /// The bit layout.
    pub closed spec fn spec_layout(&self) -> L {
        self.layout
    }

    /// The timestamp origin.
    pub closed spec fn spec_epoch(&self) -> i128 {
        self.epoch
    }

    /// The exclusive expiration boundary.
    pub closed spec fn spec_expires_at(&self) -> i128 {
        self.expires_at
    }

    /// The maximum tolerated raw rollback.
    pub closed spec fn spec_max_clock_skew(&self) -> u128 {
        self.max_clock_skew
    }

    /// The allocation state.
    pub closed spec fn spec_state(&self) -> GenerationState {
        self.state
    }

    /// The IDs generated so far.
    pub closed spec fn issued(&self) -> Set<u64> {
        self.issued@
    }

    /// The configuration is consistent, the reserved slice fits the layout,
    /// and every generated ID comes from a pair at or before it.
    pub closed spec fn wf(&self) -> bool {
        &&& self.layout.layout_wf()
        &&& is_wall_time(self.epoch as int)
        &&& self.expires_at == self.epoch + lifetime_nanos(
            self.layout.spec_time_unit(),
            self.layout.spec_max_timestamp(),
        )
        &&& self.state.wf_for(self.layout.spec_max_sequence())
        &&& self.state.below_watermark(self.layout.spec_time_unit())
        &&& (self.state.time_slice matches Some(slice) ==> slice.timestamp
            <= self.layout.spec_max_timestamp())
        &&& forall|id: u64| #[trigger] self.issued@.contains(id) ==> id_at_or_before(
            self.layout,
            id,
            self.state.time_slice,
        )
    }

    /// What one allocation attempt at wall time `observed_at` returns: the
    /// expiration and epoch checks first, then one reservation, whose slice
    /// is composed into an ID.
    pub open spec fn spec_attempt(&self, observed_at: i128) -> Result<
        GenerationAttempt<u64>,
        IdGenerationError,
    > {
        if observed_at >= self.spec_expires_at() {
            Err(
                IdGenerationError::GeneratorExpired {
                    observed_at,
                    expires_at: self.spec_expires_at(),
                },
            )
        } else {
            match ClockObservation::spec_from_time(
                observed_at,
                self.spec_epoch(),
                self.spec_layout().spec_time_unit(),
            ) {
                Err(error) => Err(error),
                Ok(observation) => match self.spec_state().spec_reserve(
                    observation,
                    self.spec_layout().spec_max_sequence(),
                    self.spec_max_clock_skew(),
                ).1 {
                    Err(error) => Err(error),
                    Ok(GenerationAttempt::RetryAfter { delay }) => Ok(
                        GenerationAttempt::RetryAfter { delay },
                    ),
                    Ok(GenerationAttempt::Generated(slice)) => Ok(
                        GenerationAttempt::Generated(
                            self.spec_layout().spec_id(slice.timestamp, slice.sequence),
                        ),
                    ),
                },
            }
        }
    }

    /// The allocation state after one attempt at wall time `observed_at`:
    /// unchanged when the attempt fails before reserving.
    pub open spec fn spec_state_after(&self, observed_at: i128) -> GenerationState {
        if observed_at >= self.spec_expires_at() {
            self.spec_state()
        } else {
            match ClockObservation::spec_from_time(
                observed_at,
                self.spec_epoch(),
                self.spec_layout().spec_time_unit(),
            ) {
                Err(_) => self.spec_state(),
                Ok(observation) => self.spec_state().spec_reserve(
                    observation,
                    self.spec_layout().spec_max_sequence(),
                    self.spec_max_clock_skew(),
                ).0,
            }
        }
    }

    /// What composing `sequence` at wall time `time` returns.
    pub open spec fn spec_compose_at(&self, time: i128, sequence: u64) -> Result<
        u64,
        IdGenerationError,
    > {
        if time >= self.spec_expires_at() {
            Err(IdGenerationError::GeneratorExpired { observed_at: time, expires_at: self.spec_expires_at() })
        } else {
            match ClockObservation::spec_from_time(
                time,
                self.spec_epoch(),
                self.spec_layout().spec_time_unit(),
            ) {
                Err(error) => Err(error),
                Ok(observation) => self.spec_layout().spec_compose(observation.timestamp, sequence),
            }
        }
    }

    /// Creates a core from a validated generator configuration.
    pub fn new(
        layout: L,
        epoch: i128,
        expires_at: i128,
        max_clock_skew: u128,
        restart_policy: RestartPolicy,
    ) -> (core: Self)
        requires
            layout.layout_wf(),
            is_wall_time(epoch as int),
            expires_at == epoch + lifetime_nanos(
                layout.spec_time_unit(),
                layout.spec_max_timestamp(),
            ),
        ensures
            core.wf(),
            core.spec_layout() == layout,
            core.spec_epoch() == epoch,
            core.spec_expires_at() == expires_at,
            core.spec_max_clock_skew() == max_clock_skew,
            core.spec_state().last_observed_elapsed is None,
            core.spec_state().time_slice is None,
            core.spec_state().restart_fence == (match restart_policy {
                RestartPolicy::Immediate => RestartFence::Disabled,
                RestartPolicy::WaitNextSlice => RestartFence::Uninitialized,
            }),
            core.issued() == Set::<u64>::empty(),
    {
        SnowflakeCore {
            layout,
            epoch,
            expires_at,
            max_clock_skew,
            state: GenerationState::new(restart_policy),
            issued: Ghost(Set::empty()),
        }
    }

    /// Validates a generator configuration against the wall time observed
    /// while building it, and creates its core.
    ///
    /// # Errors
    ///
    /// Returns [`IdGenerationError::EpochAhead`] when `epoch` is later than
    /// `current_time`, [`IdGenerationError::ExpirationTimeOverflow`] when the
    /// exclusive expiration cannot be represented, or
    /// [`IdGenerationError::GeneratorExpired`] when `current_time` has
    /// reached it.
    pub fn configure(
        layout: L,
        epoch: i128,
        max_clock_skew: u128,
        restart_policy: RestartPolicy,
        current_time: i128,
    ) -> (core: Result<Self, IdGenerationError>)
        requires
            layout.layout_wf(),
            is_wall_time(epoch as int),
        ensures
            epoch > current_time ==> core == Err::<Self, IdGenerationError>(
                IdGenerationError::EpochAhead { epoch, current_time },
            ),
            epoch <= current_time ==> match spec_expiration_time(
                epoch,
                layout.spec_time_unit(),
                layout.spec_max_timestamp(),
            ) {
                Err(error) => core == Err::<Self, IdGenerationError>(error),
                Ok(expires_at) => if current_time >= expires_at {
                    core == Err::<Self, IdGenerationError>(
                        IdGenerationError::GeneratorExpired { observed_at: current_time, expires_at },
                    )
                } else {
                    core matches Ok(core) && core.wf() && core.spec_layout() == layout
                        && core.spec_epoch() == epoch && core.spec_expires_at() == expires_at
                        && core.spec_max_clock_skew() == max_clock_skew
                        && core.spec_state().last_observed_elapsed is None
                        && core.spec_state().time_slice is None
                        && core.spec_state().restart_fence == (match restart_policy {
                        RestartPolicy::Immediate => RestartFence::Disabled,
                        RestartPolicy::WaitNextSlice => RestartFence::Uninitialized,
                    }) && core.issued() == Set::<u64>::empty()
                },
            },
    {
        validate_generator_epoch(epoch, current_time)?;
        let expires_at = expiration_time(epoch, layout.unit_nanos(), layout.timestamp_limit())?;
        validate_generator_lifetime(epoch, expires_at, current_time)?;
        Ok(Self::new(layout, epoch, expires_at, max_clock_skew, restart_policy))
    }

    /// Performs one allocation attempt at the wall time `observed_at`,
    /// without waiting. The caller waits out a returned retry delay.
    ///
    /// Every generated ID differs from every ID this core generated before.
    ///
    /// # Errors
    ///
    /// Returns [`IdGenerationError::GeneratorExpired`] at the lifetime
    /// boundary, [`IdGenerationError::TimeBeforeEpoch`] when the time
    /// precedes the epoch, or [`IdGenerationError::ClockMovedBackwards`] when
    /// rollback exceeds the configured tolerance.
    pub fn try_generate(&mut self, observed_at: i128) -> (attempt: Result<
        GenerationAttempt<u64>,
        IdGenerationError,
    >)
        requires
            old(self).wf(),
            is_wall_time(observed_at as int),
        ensures
            final(self).wf(),
            final(self).spec_layout() == old(self).spec_layout(),
            final(self).spec_epoch() == old(self).spec_epoch(),
            final(self).spec_expires_at() == old(self).spec_expires_at(),
            final(self).spec_max_clock_skew() == old(self).spec_max_clock_skew(),
            final(self).spec_state() == old(self).spec_state_after(observed_at),
            attempt == old(self).spec_attempt(observed_at),
            attempt matches Ok(GenerationAttempt::Generated(id)) ==> !old(self).issued().contains(
                id,
            ) && final(self).issued() == old(self).issued().insert(id),
            attempt matches Ok(GenerationAttempt::Generated(id)) ==> (
            old(self).spec_layout().spec_time_ordered() ==> forall|other: u64| #[trigger]
                old(self).issued().contains(other) ==> other < id),
            !(attempt matches Ok(GenerationAttempt::Generated(_))) ==> final(self).issued() == old(
                self,
            ).issued(),
            attempt matches Ok(GenerationAttempt::RetryAfter { delay }) ==> delay > 0,
            attempt matches Ok(GenerationAttempt::Generated(id)) ==> old(self).spec_epoch()
                <= observed_at < old(self).spec_expires_at() && (observed_at - old(
                self,
            ).spec_epoch()) / (old(self).spec_layout().spec_time_unit() as int) <= old(
                self,
            ).spec_layout().spec_max_timestamp() && exists|sequence: u64|
                sequence <= old(self).spec_layout().spec_max_sequence() && id
                    == #[trigger] old(self).spec_layout().spec_id(
                    ((observed_at - old(self).spec_epoch()) / (old(
                        self,
                    ).spec_layout().spec_time_unit() as int)) as u64,
                    sequence,
                ),
            attempt is Err ==> final(self).spec_state() == old(self).spec_state(),
    {
        self.ensure_active(observed_at)?;
        let observation = self.observation_for(observed_at)?;
        let max_sequence = self.layout.sequence_limit();
        let ghost previous = self.state.time_slice;
        let ghost before = self.issued@;
        proof {
            self.layout.lemma_layout_facts(0, 0);
            lemma_reserve_follows_observation(
                self.state,
                observation,
                max_sequence,
                self.max_clock_skew,
                self.layout.spec_time_unit(),
            );
        }
        let reserved = self.state.reserve(observation, max_sequence, self.max_clock_skew);
        match reserved {
            Err(error) => Err(error),
            Ok(GenerationAttempt::RetryAfter { delay }) => Ok(GenerationAttempt::RetryAfter { delay }),
            Ok(GenerationAttempt::Generated(slice)) => {
                proof {
                    self.layout.lemma_layout_facts(slice.timestamp, slice.sequence);
                }
                match self.layout.compose_parts(slice.timestamp, slice.sequence) {
                    Err(error) => Err(error),
                    Ok(id) => {
                        proof {
                            lemma_fresh_id(self.layout, previous, before, slice, id);
                        }
                        assert(id == self.layout.spec_id(
                            ((observed_at - self.epoch) / (self.layout.spec_time_unit() as int)) as u64,
                            slice.sequence,
                        ));
                        self.issued = Ghost(before.insert(id));
                        Ok(GenerationAttempt::Generated(id))
                    },
                }
            },
        }
    }

    /// Composes an ID for an explicit wall time and sequence.
    ///
    /// This operation is stateless and provides no uniqueness guarantee.
    ///
    /// # Errors
    ///
    /// Returns [`IdGenerationError::GeneratorExpired`] if `time` has reached
    /// the exclusive expiration boundary,
    /// [`IdGenerationError::TimeBeforeEpoch`] if `time` is before the epoch,
    /// or [`IdGenerationError::SequenceOverflow`] when `sequence` does not
    /// fit the layout.
    pub fn compose_at(&self, time: i128, sequence: u64) -> (id: Result<u64, IdGenerationError>)
        requires
            self.wf(),
            is_wall_time(time as int),
        ensures
            id == self.spec_compose_at(time, sequence),
            self.spec_epoch() <= time < self.spec_expires_at() && sequence
                <= self.spec_layout().spec_max_sequence() ==> id == Ok::<u64, IdGenerationError>(
                self.spec_layout().spec_id(
                    ((time - self.spec_epoch()) / (self.spec_layout().spec_time_unit() as int)) as u64,
                    sequence,
                ),
            ),
    {
        self.ensure_active(time)?;
        let observation = self.observation_for(time)?;
        proof {
            self.layout.lemma_layout_facts(observation.timestamp, sequence);
        }
        self.layout.compose_parts(observation.timestamp, sequence)
    }

    /// A well-formed core's layout is well formed and its expiration
    /// boundary is the epoch plus the layout's lifetime: one unit for each
    /// timestamp up to the greatest.
    pub proof fn lemma_wf_facts(&self)
        requires
            self.wf(),
        ensures
            self.spec_layout().layout_wf(),
            is_wall_time(self.spec_epoch() as int),
            self.spec_expires_at() == self.spec_epoch() + lifetime_nanos(
                self.spec_layout().spec_time_unit(),
                self.spec_layout().spec_max_timestamp(),
            ),
    {
    }

    /// Returns the configured layout.
    pub fn layout(&self) -> (layout: &L)
        ensures
            *layout == self.spec_layout(),
    {
        &self.layout
    }

    /// Returns the configured timestamp origin.
    pub fn epoch(&self) -> (epoch: i128)
        ensures
            epoch == self.spec_epoch(),
    {
        self.epoch
    }

    /// Returns the exclusive expiration boundary.
    pub fn expires_at(&self) -> (expires_at: i128)
        ensures
            expires_at == self.spec_expires_at(),
    {
        self.expires_at
    }

    /// Returns the maximum tolerated raw wall-clock rollback.
    pub fn max_clock_skew(&self) -> (max_clock_skew: u128)
        ensures
            max_clock_skew == self.spec_max_clock_skew(),
    {
        self.max_clock_skew
    }

    /// Converts one wall time into a layout-aware clock observation.
    fn observation_for(&self, time: i128) -> (observation: Result<
        ClockObservation,
        IdGenerationError,
    >)
        requires
            self.wf(),
            is_wall_time(time as int),
            time < self.expires_at,
        ensures
            observation == ClockObservation::spec_from_time(
                time,
                self.epoch,
                self.layout.spec_time_unit(),
            ),
            observation matches Ok(o) ==> 0 < o.retry_after && o.timestamp
                <= self.layout.spec_max_timestamp() && o.timestamp == o.elapsed
                / self.layout.spec_time_unit(),
            time >= self.epoch ==> (time - self.epoch) / (self.layout.spec_time_unit() as int)
                <= self.layout.spec_max_timestamp(),
    {
        proof {
            self.layout.lemma_layout_facts(0, 0);
            if time >= self.epoch {
                lemma_slice_within_lifetime(
                    time - self.epoch,
                    self.layout.spec_time_unit() as int,
                    self.layout.spec_max_timestamp() as int,
                );
            }
        }
        ClockObservation::from_time(
            time,
            self.epoch,
            self.layout.unit_nanos(),
            self.layout.timestamp_limit(),
        )
    }

    /// Rejects wall times at or beyond the exclusive expiration boundary.
    fn ensure_active(&self, observed_at: i128) -> (active: Result<(), IdGenerationError>)
        ensures
            active == (if observed_at >= self.expires_at {
                Err(IdGenerationError::GeneratorExpired { observed_at, expires_at: self.expires_at })
            } else {
                Ok(())
            }),
    {
        if observed_at >= self.expires_at {
            return Err(
                IdGenerationError::GeneratorExpired { observed_at, expires_at: self.expires_at },
            );
        }
        Ok(())
    }
}

} // verus!
