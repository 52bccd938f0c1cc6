//! Blocking generation capability for ID generators.

use std::sync::Arc;

use vstd::prelude::*;

use crate::id::Id;
use crate::id_generation_error::IdGenerationError;

verus! {

/// Generates identifiers synchronously, blocking when necessary.
///
/// Implementations may wait for time to advance or for another retryable
/// condition to clear.
pub trait IdGenerator<Output = Id, Error = IdGenerationError>: Send + Sync {
    /// Generates the next identifier.
    ///
    /// # Errors
    ///
    /// Returns `Error` when the implementation cannot generate an identifier.
    fn generate(&self) -> Result<Output, Error>;
}

impl<Output, Error, G: IdGenerator<Output, Error> + ?Sized> IdGenerator<Output, Error> for Arc<G> {
    /// Delegates identifier generation to the shared generator: the result
    /// is one that the shared generator's own `generate` can return.
    fn generate(&self) -> (generated: Result<Output, Error>)
        ensures
            call_ensures(<G as IdGenerator<Output, Error>>::generate, (&**self,), generated),
    {
        (**self).generate()
    }
}

} // verus!
