//! ID ordering mode for Qubit snowflake IDs.

use vstd::prelude::*;

verus! {

/// Ordering mode encoded in a Qubit snowflake ID.
#[derive(Debug, Clone, Copy, PartialEq, Eq, Structural, Hash)]
pub enum IdMode {
    /// Timestamp bits are stored in normal order, producing time-ordered IDs.
    Sequential,
    /// Timestamp bits are reversed, spreading adjacent timestamps across the
    /// ID space. This is reversible obfuscation, not encryption: anyone who
    /// knows the layout can recover the timestamp.
    Spread,
}

impl IdMode {
    /// The one-bit value that encodes this mode.
    pub open spec fn bit(self) -> u64 {
        match self {
            IdMode::Sequential => 0,
            IdMode::Spread => 1,
        }
    }

    /// The mode that a one-bit value decodes to: zero is sequential, every
    /// other value is spread.
    pub open spec fn of_bit(bit: u64) -> IdMode {
        if bit == 0 {
            IdMode::Sequential
        } else {
            IdMode::Spread
        }
    }

    /// Decodes an ID mode from a one-bit value.
    ///
    /// Returns [`IdMode::Sequential`] for `0` and [`IdMode::Spread`] for every
    /// non-zero value.
    pub fn from_bit(bit: u64) -> (mode: Self)
        ensures
            mode == Self::of_bit(bit),
    {
        if bit == 0 {
            IdMode::Sequential
        } else {
            IdMode::Spread
        }
    }

    /// Returns the one-bit ordinal used by the Qubit layout: `0` for
    /// [`IdMode::Sequential`] and `1` for [`IdMode::Spread`].
    pub fn ordinal(self) -> (ordinal: u64)
        ensures
            ordinal == self.bit(),
    {
        match self {
            IdMode::Sequential => 0,
            IdMode::Spread => 1,
        }
    }
}

/// Decoding the ordinal of a mode gives the mode back, and every mode's
/// ordinal is a single bit.
pub proof fn lemma_id_mode_bit_round_trip(mode: IdMode)
    ensures
        IdMode::of_bit(mode.bit()) == mode,
        mode.bit() <= 1,
{
}

} // verus!
