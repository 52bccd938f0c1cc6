//! Types of outside crates that the library's errors carry.

use vstd::prelude::*;

verus! {

/// The error of `qubit_clock` timers and sleepers, carried by
/// [`crate::IdGenerationError::WaitFailed`] and
/// [`crate::IdError::SleepFailed`]; opaque here.
#[verifier::external_type_specification]
#[verifier::external_body]
pub struct ExTimeError(qubit_clock::TimeError);

/// The error of the operating-system random source, carried by the random
/// source variants of the library's errors; opaque here.
#[verifier::external_type_specification]
#[verifier::external_body]
pub struct ExRandomSourceError(getrandom::Error);

/// The error of parsing decimal text into an integer, which
/// [`crate::Id`]'s text parsing returns; opaque here.
#[verifier::external_type_specification]
#[verifier::external_body]
pub struct ExParseIntError(core::num::ParseIntError);

} // verus!
