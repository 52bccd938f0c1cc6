//! Domain value for generated unsigned 64-bit identifiers.

use core::cmp::Ordering;

use vstd::prelude::*;

use crate::decimal::{decimal_text, lemma_parse_decimal_text, parse_u64, parsed_u64, u64_to_decimal};

verus! {

/// A generated identifier backed by an unsigned 64-bit value.
#[derive(Debug, Clone, Copy, PartialEq, Eq, Structural, Ord, Hash)]
pub struct Id(u64);

impl View for Id {
    type V = u64;

    /// The underlying unsigned 64-bit value.
    closed spec fn view(&self) -> u64 {
        self.0
    }
}

impl Id {
    /// The identifier of a value.
    pub closed spec fn of(value: u64) -> Id {
        Id(value)
    }

    /// Creates an identifier from its underlying value.
    pub fn new(value: u64) -> (id: Self)
        ensures
            id == Id::of(value),
            id@ == value,
    {
        Id(value)
    }

    /// Returns the underlying unsigned 64-bit value.
    pub fn value(self) -> (value: u64)
        ensures
            value == self@,
    {
        self.0
    }

    /// Formats the identifier as unsigned decimal text.
    pub fn to_string(&self) -> (text: String)
        ensures
            text@ == decimal_text(self@ as nat),
    {
        u64_to_decimal(self.0)
    }
}

impl Default for Id {
    /// The identifier of value zero.
    fn default() -> (id: Self)
        ensures
            id == Id::of(0),
            id@ == 0,
    {
        Id(0)
    }
}

impl PartialOrd for Id {
    /// Orders identifiers by their values.
    fn partial_cmp(&self, other: &Self) -> (ordering: Option<Ordering>) {
        if self.0 < other.0 {
            Some(Ordering::Less)
        } else if self.0 > other.0 {
            Some(Ordering::Greater)
        } else {
            Some(Ordering::Equal)
        }
    }
}

impl vstd::std_specs::cmp::PartialOrdSpecImpl for Id {
    open spec fn obeys_partial_cmp_spec() -> bool {
        true
    }

    open spec fn partial_cmp_spec(&self, other: &Id) -> Option<Ordering> {
        if self@ < other@ {
            Some(Ordering::Less)
        } else if self@ > other@ {
            Some(Ordering::Greater)
        } else {
            Some(Ordering::Equal)
        }
    }
}

/// An identifier is its value: wrapping and unwrapping are inverse.
pub proof fn lemma_id_value_round_trip(value: u64, id: Id)
    ensures
        Id::of(value)@ == value,
        Id::of(id@) == id,
{
}

impl From<u64> for Id {
    /// Wraps an unsigned 64-bit value as an identifier.
    fn from(value: u64) -> (id: Self) {
        Self::new(value)
    }
}

impl vstd::std_specs::convert::FromSpecImpl<u64> for Id {
    open spec fn obeys_from_spec() -> bool {
        true
    }

    open spec fn from_spec(value: u64) -> Id {
        Id::of(value)
    }
}

impl From<Id> for u64 {
    /// Extracts the underlying unsigned 64-bit value.
    fn from(id: Id) -> (value: Self) {
        id.value()
    }
}

impl vstd::std_specs::convert::FromSpecImpl<Id> for u64 {
    open spec fn obeys_from_spec() -> bool {
        true
    }

    open spec fn from_spec(id: Id) -> u64 {
        id@
    }
}

impl core::str::FromStr for Id {
    type Err = core::num::ParseIntError;

    /// Parses an unsigned decimal identifier: an optional `+` followed by at
    /// least one ASCII digit, of a value that fits `u64`.
    ///
    /// # Errors
    ///
    /// Returns the standard integer parsing error when `value` is empty,
    /// contains non-decimal characters, or exceeds the `u64` range.
    fn from_str(value: &str) -> (id: Result<Self, Self::Err>)
        ensures
            id is Ok <==> parsed_u64(value@) is Some,
            id matches Ok(id) ==> parsed_u64(value@) == Some(id@),
    {
        match parse_u64(value) {
            Ok(parsed) => Ok(Id::new(parsed)),
            Err(error) => Err(error),
        }
    }
}

impl<'a> TryFrom<&'a str> for Id {
    type Error = core::num::ParseIntError;

    /// Parses an unsigned decimal identifier from borrowed text, as
    /// [`core::str::FromStr::from_str`] does.
    ///
    /// # Errors
    ///
    /// Returns the standard integer parsing error for invalid or overflowing
    /// decimal text.
    fn try_from(value: &'a str) -> (id: Result<Self, Self::Error>)
        ensures
            id is Ok <==> parsed_u64(value@) is Some,
            id matches Ok(id) ==> parsed_u64(value@) == Some(id@),
    {
        <Id as core::str::FromStr>::from_str(value)
    }
}

impl<'a> vstd::std_specs::convert::TryFromSpecImpl<&'a str> for Id {
    /// The parse error that comes back is left unsaid, so the generic
    /// conversion law is not claimed; `try_from` states its own contract.
    open spec fn obeys_try_from_spec() -> bool {
        false
    }

    open spec fn try_from_spec(value: &'a str) -> Result<Id, core::num::ParseIntError> {
        vstd::pervasive::arbitrary()
    }
}

/// Parsing the decimal text of an identifier gives the identifier back.
pub proof fn lemma_id_text_round_trip(id: Id)
    ensures
        parsed_u64(decimal_text(id@ as nat)) == Some(id@),
{
    lemma_parse_decimal_text(id@);
}

} // verus!
