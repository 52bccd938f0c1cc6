//! Decimal-string adapter for Snowflake-family generators.

use vstd::prelude::*;

use crate::decimal::{decimal_text, u64_to_decimal};
use crate::id_generator::IdGenerator;

verus! {

/// Adapts a numeric Snowflake generator to decimal [`String`] output.
#[derive(Debug)]
pub struct SnowflakeStringGenerator<G> {
    /// Numeric generator wrapped by this adapter.
    inner: G,
}

impl<G> SnowflakeStringGenerator<G> {
    /// The wrapped numeric generator.
    pub closed spec fn spec_inner(&self) -> G {
        self.inner
    }

    /// Creates a decimal-string adapter for `inner`.
    pub fn new(inner: G) -> (adapter: Self)
        ensures
            adapter.spec_inner() == inner,
    {
        SnowflakeStringGenerator { inner }
    }

    /// Returns a shared reference to the wrapped numeric generator.
    pub fn inner(&self) -> (inner: &G)
        ensures
            *inner == self.spec_inner(),
    {
        &self.inner
    }

    /// Consumes the adapter and returns the wrapped numeric generator.
    pub fn into_inner(self) -> (inner: G)
        ensures
            inner == self.spec_inner(),
    {
        self.inner
    }

    /// Formats what the wrapped generator returned: a generated ID as its
    /// unsigned decimal text, an error unchanged.
    pub fn format_generated<E>(generated: Result<u64, E>) -> (text: Result<String, E>)
        ensures
            match generated {
                Ok(id) => text matches Ok(text) && text@ == decimal_text(id as nat),
                Err(error) => text == Err::<String, E>(error),
            },
    {
        match generated {
            Ok(id) => Ok(u64_to_decimal(id)),
            Err(error) => Err(error),
        }
    }
}

/// `text` is what formatting `generated` gives: a generated ID as its unsigned
/// decimal text, an error unchanged.
pub open spec fn formats_generated<E>(generated: Result<u64, E>, text: Result<String, E>) -> bool {
    match generated {
        Ok(id) => text matches Ok(text) && text@ == decimal_text(id as nat),
        Err(error) => text == Err::<String, E>(error),
    }
}

impl<G: IdGenerator<u64, E>, E> IdGenerator<String, E> for SnowflakeStringGenerator<G> {
    /// Generates a Snowflake ID as unsigned decimal text.
    ///
    /// # Errors
    ///
    /// Returns the error produced by the wrapped generator.
    fn generate(&self) -> (text: Result<String, E>)
        ensures
            exists|generated: Result<u64, E>|
                call_ensures(<G as IdGenerator<u64, E>>::generate, (&self.spec_inner(),), generated)
                    && #[trigger] formats_generated(generated, text),
    {
        let generated = self.inner.generate();
        let text = Self::format_generated(generated);
        assert(formats_generated(generated, text));
        text
    }
}

} // verus!
