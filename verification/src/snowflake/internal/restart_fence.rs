//! The first-allocation fence used by restart policies.

use vstd::prelude::*;

use crate::restart_policy::RestartPolicy;

verus! {

/// Tracks whether a restarted generator may allocate in the observed slice.
#[derive(Debug, Clone, Copy, PartialEq, Eq, Structural)]
pub enum RestartFence {
    /// Allocation may begin immediately.
    Disabled,
    /// The first timestamp has not yet been observed.
    Uninitialized,
    /// Allocation is waiting for a timestamp after the baseline.
    Waiting {
        /// Timestamp observed by the first generation attempt.
        baseline_timestamp: u64,
    },
}

impl RestartFence {
    /// Whether allocation must still wait when `timestamp` is observed.
    pub open spec fn holds_at(self, timestamp: u64) -> bool {
        match self {
            RestartFence::Disabled => false,
            RestartFence::Uninitialized => true,
            RestartFence::Waiting { baseline_timestamp } => timestamp <= baseline_timestamp,
        }
    }

    /// The fence after `timestamp` is observed: the first observation sets
    /// the baseline, a later slice opens the fence for good.
    pub open spec fn after(self, timestamp: u64) -> RestartFence {
        match self {
            RestartFence::Disabled => RestartFence::Disabled,
            RestartFence::Uninitialized => RestartFence::Waiting { baseline_timestamp: timestamp },
            RestartFence::Waiting { baseline_timestamp } => if timestamp <= baseline_timestamp {
                self
            } else {
                RestartFence::Disabled
            },
        }
    }

    /// Creates a fence for the configured restart policy: disabled for
    /// immediate allocation, uninitialized for waiting a slice.
    pub fn new(policy: RestartPolicy) -> (fence: Self)
        ensures
            fence == (match policy {
                RestartPolicy::Immediate => RestartFence::Disabled,
                RestartPolicy::WaitNextSlice => RestartFence::Uninitialized,
            }),
    {
        match policy {
            RestartPolicy::Immediate => RestartFence::Disabled,
            RestartPolicy::WaitNextSlice => RestartFence::Uninitialized,
        }
    }

    /// Returns whether allocation must still wait at `timestamp`, recording
    /// the observation.
    pub fn should_wait(&mut self, timestamp: u64) -> (wait: bool)
        ensures
            wait == old(self).holds_at(timestamp),
            *final(self) == old(self).after(timestamp),
    {
        match *self {
            RestartFence::Disabled => false,
            RestartFence::Uninitialized => {
                *self = RestartFence::Waiting { baseline_timestamp: timestamp };
                true
            },
            RestartFence::Waiting { baseline_timestamp } => {
                if timestamp <= baseline_timestamp {
                    true
                } else {
                    *self = RestartFence::Disabled;
                    false
                }
            },
        }
    }
}

} // verus!
