//! Result of one ID generation attempt that does not invoke a sleeper.

use vstd::prelude::*;

verus! {

/// Result of one ID generation attempt that does not invoke a sleeper.
///
/// `RetryAfter` is a scheduling instruction, not an error. The caller can
/// retry after the returned positive duration or choose its own cancellation
/// and backoff policy. `T` is the generated ID representation.
#[derive(Debug, Clone, Copy, PartialEq, Eq, Structural)]
pub enum GenerationOutcome<T> {
    /// An ID was generated successfully.
    Generated(T),
    /// Generation can be retried after the specified positive number of
    /// nanoseconds.
    RetryAfter(u128),
}

impl<T> GenerationOutcome<T> {
    /// Whether `mapped` is what mapping this outcome with `transform` gives:
    /// a generated value becomes one that `transform` can return for it, a
    /// retry keeps its duration.
    pub open spec fn maps_to<U, F: FnOnce(T) -> U>(
        self,
        transform: F,
        mapped: GenerationOutcome<U>,
    ) -> bool {
        match self {
            GenerationOutcome::Generated(value) => mapped matches GenerationOutcome::Generated(
                mapped_value,
            ) && transform.ensures((value,), mapped_value),
            GenerationOutcome::RetryAfter(duration) => mapped == GenerationOutcome::<
                U,
            >::RetryAfter(duration),
        }
    }

    /// Converts a generated value while preserving retry decisions; a retry
    /// does not call `transform`.
    pub fn map<U, F>(self, transform: F) -> (mapped: GenerationOutcome<U>) where
        F: FnOnce(T) -> U,

        requires
            self matches GenerationOutcome::Generated(value) ==> transform.requires((value,)),
        ensures
            self.maps_to(transform, mapped),
    {
        match self {
            GenerationOutcome::Generated(value) => GenerationOutcome::Generated(transform(value)),
            GenerationOutcome::RetryAfter(duration) => GenerationOutcome::RetryAfter(duration),
        }
    }
}

/// Mapping with a transform that returns its argument gives the outcome
/// back.
pub proof fn lemma_outcome_map_identity<T, F: FnOnce(T) -> T>(
    outcome: GenerationOutcome<T>,
    identity: F,
    mapped: GenerationOutcome<T>,
)
    requires
        forall|value: T, result: T| #[trigger] identity.ensures((value,), result) ==> result
            == value,
        outcome.maps_to(identity, mapped),
    ensures
        mapped == outcome,
{
}

/// Mapping with `first` and then with `second` gives what mapping once with
/// any transform `both` that can return `second`'s result on `first`'s
/// result gives.
pub proof fn lemma_outcome_map_composition<T, U, V, F: FnOnce(T) -> U, G: FnOnce(U) -> V, H: FnOnce(
    T,
) -> V>(
    outcome: GenerationOutcome<T>,
    first: F,
    second: G,
    both: H,
    once: GenerationOutcome<U>,
    twice: GenerationOutcome<V>,
)
    requires
        forall|value: T, middle: U, result: V|
            #[trigger] first.ensures((value,), middle) && #[trigger] second.ensures(
                (middle,),
                result,
            ) ==> both.ensures((value,), result),
        outcome.maps_to(first, once),
        once.maps_to(second, twice),
    ensures
        outcome.maps_to(both, twice),
{
}

} // verus!
