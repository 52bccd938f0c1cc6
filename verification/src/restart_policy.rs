//! Restart policy for Snowflake-family generators.

use vstd::prelude::*;

verus! {

/// Determines when a fresh Snowflake generator may allocate its first ID.
///
/// Allocation state is not persisted. [`RestartPolicy::Immediate`] minimizes
/// startup latency but can repeat IDs after state loss when the old and
/// replacement instances share identity, layout and reference time and
/// allocate in the same logical time slice. [`RestartPolicy::WaitNextSlice`]
/// skips the first observed slice; it does not know a predecessor's
/// allocation watermark, so clock rollback across a restart can still repeat
/// IDs.
#[derive(Debug, Clone, Copy, PartialEq, Eq, Structural)]
pub enum RestartPolicy {
    /// Allocates immediately; this is the default.
    Immediate,
    /// Waits until the slice after the first observed slice.
    WaitNextSlice,
}

impl Default for RestartPolicy {
    /// Returns [`RestartPolicy::Immediate`].
    fn default() -> (policy: Self)
        ensures
            policy == RestartPolicy::Immediate,
    {
        RestartPolicy::Immediate
    }
}

} // verus!
