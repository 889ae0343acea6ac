//! Task priorities used by the admission rate limiter.

use vstd::prelude::*;

verus! {

/// Priority of a submitted task. `NoPriority` marks a task that takes no part in
/// preemption; the others order tasks from least to most urgent.
#[derive(Debug, Clone, PartialEq, Eq, Structural)]
pub enum Priority {
    NoPriority,
    Low,
    Medium,
    High,
}

impl Priority {
    /// The ordinal of this priority: `NoPriority` = 0 < `Low` = 1 < `Medium` = 2 < `High` = 3.
    pub fn to_value(&self) -> (v: u8)
        ensures
            v == self.ordinal(),
    {
        match self {
            Priority::NoPriority => 0,
            Priority::Low => 1,
            Priority::Medium => 2,
            Priority::High => 3,
        }
    }

    /// Mathematical ordinal of a priority.
    pub open spec fn ordinal(self) -> u8 {
        match self {
            Priority::NoPriority => 0,
            Priority::Low => 1,
            Priority::Medium => 2,
            Priority::High => 3,
        }
    }
}

} // verus!
