//! The per-task timeout supervisor.
//!
//! A task is driven to completion by repeated non-blocking steps with a
//! wall-clock deadline: step, wait a fixed pause, recheck the deadline.
//! Polling a boxed future and pausing are the embedding program's part;
//! the supervisor here is the state machine that decides — and records —
//! when a task has finished and when it is abandoned as timed out.

use vstd::prelude::*;

verus! {

/// Outcome record of one supervised task.
#[derive(Debug, Clone, Copy, PartialEq, Eq, Structural)]
pub struct FutureStatus {
    pub succeeded: bool,
    pub failed: bool,
    pub execution_time: u32,
}

impl FutureStatus {
    pub const DEFAULT_EXECUTION_TIME: u32 = 0;
}

impl Default for FutureStatus {
    /// A fresh status: nothing has happened yet.
    fn default() -> (s: Self)
        ensures
            !s.succeeded,
            !s.failed,
            s.execution_time == 0,
    {
        Self {
            succeeded: false,
            failed: false,
            execution_time: FutureStatus::DEFAULT_EXECUTION_TIME,
        }
    }
}

/// Supervises one task: holds its status while the embedding loop polls
/// the task and reports the elapsed time back here.
#[derive(Debug, Clone, Copy, PartialEq, Eq, Structural)]
pub struct CustomFutureExecutorTimeout {
    pub status: FutureStatus,
}

impl CustomFutureExecutorTimeout {
    /// A supervisor for a task that has not been polled yet.
    pub fn new() -> (e: CustomFutureExecutorTimeout)
        ensures
            !e.status.succeeded,
            !e.status.failed,
            e.status.execution_time == 0,
    {
        CustomFutureExecutorTimeout { status: FutureStatus::default() }
    }

    /// The deadline check made before every poll: the task is marked
    /// failed exactly when the elapsed time has reached the configured
    /// timeout — at or after it, never before. Short of the deadline
    /// nothing changes and polling goes on.
    pub fn deadline_reached(&mut self, elapsed_secs: u64, timeout_secs: u64) -> (expired:
        bool)
        ensures
            expired <==> elapsed_secs >= timeout_secs,
            expired ==> final(self).status == (FutureStatus {
                failed: true,
                ..old(self).status
            }),
            !expired ==> *final(self) == *old(self),
    {
        if elapsed_secs >= timeout_secs {
            self.status.failed = true;
            true
        } else {
            false
        }
    }

    /// Record that a poll reported completion after `elapsed_secs`.
    pub fn record_completion(&mut self, elapsed_secs: u32)
        ensures
            final(self).status.succeeded,
            final(self).status.execution_time == elapsed_secs,
            final(self).status.failed == old(self).status.failed,
    {
        self.status.execution_time = elapsed_secs;
        self.status.succeeded = true;
    }

    /// The status recorded so far.
    pub fn status(&self) -> (s: FutureStatus)
        ensures
            s == self.status,
    {
        self.status
    }
}

} // verus!
