//! Result of a non-blocking ID allocation attempt.

use vstd::prelude::*;

verus! {

/// Result of an allocation attempt that never sleeps or awaits.
#[derive(Debug, Clone, Copy, PartialEq, Eq, Structural)]
pub enum GenerationAttempt<T> {
    /// Allocation completed with a generated value.
    Generated(T),
    /// Allocation can continue after the specified duration.
    RetryAfter {
        /// Minimum nanoseconds before another allocation attempt.
        delay: u128,
    },
}

impl<T> GenerationAttempt<T> {
    /// Whether `mapped` is what mapping this attempt with `f` gives: a
    /// generated value becomes one that `f` can return for it, a retry keeps
    /// its delay.
    pub open spec fn maps_to<U, F: FnOnce(T) -> U>(self, f: F, mapped: GenerationAttempt<U>) -> bool {
        match self {
            GenerationAttempt::Generated(value) => mapped matches GenerationAttempt::Generated(
                mapped_value,
            ) && f.ensures((value,), mapped_value),
            GenerationAttempt::RetryAfter { delay } => mapped
                == GenerationAttempt::<U>::RetryAfter { delay },
        }
    }

    /// Converts a generated value while preserving retry decisions; a retry
    /// does not call `f`.
    pub fn map<U, F: FnOnce(T) -> U>(self, f: F) -> (mapped: GenerationAttempt<U>)
        requires
            self matches GenerationAttempt::Generated(value) ==> f.requires((value,)),
        ensures
            self.maps_to(f, mapped),
    {
        match self {
            GenerationAttempt::Generated(value) => GenerationAttempt::Generated(f(value)),
            GenerationAttempt::RetryAfter { delay } => GenerationAttempt::RetryAfter { delay },
        }
    }
}

/// Mapping with a transform that returns its argument gives the attempt
/// back.
pub proof fn lemma_attempt_map_identity<T, F: FnOnce(T) -> T>(
    attempt: GenerationAttempt<T>,
    identity: F,
    mapped: GenerationAttempt<T>,
)
    requires
        forall|value: T, result: T| #[trigger] identity.ensures((value,), result) ==> result
            == value,
        attempt.maps_to(identity, mapped),
    ensures
        mapped == attempt,
{
}

/// Mapping with `first` and then with `second` gives what mapping once with
/// any transform `both` that can return `second`'s result on `first`'s
/// result gives.
pub proof fn lemma_attempt_map_composition<T, U, V, F: FnOnce(T) -> U, G: FnOnce(U) -> V, H: FnOnce(
    T,
) -> V>(
    attempt: GenerationAttempt<T>,
    first: F,
    second: G,
    both: H,
    once: GenerationAttempt<U>,
    twice: GenerationAttempt<V>,
)
    requires
        forall|value: T, middle: U, result: V|
            #[trigger] first.ensures((value,), middle) && #[trigger] second.ensures(
                (middle,),
                result,
            ) ==> both.ensures((value,), result),
        attempt.maps_to(first, once),
        once.maps_to(second, twice),
    ensures
        attempt.maps_to(both, twice),
{
}

} // verus!
