//! Aggregate execution counters shared by all workers.
//!
//! One `MetricsReport` lives for the pool's whole life; workers update it
//! under exclusive access after every task they run.

use vstd::prelude::*;

verus! {

/// Monotonic counters of the pool's work: tasks started, tasks that missed
/// their deadline, and the summed execution time of the successful ones.
#[derive(Debug, Clone, Copy, PartialEq, Eq, Structural)]
pub struct MetricsReport {
    pub tasks_count: u32,
    pub tasks_failed: u32,
    pub total_execution_time: u32,
}

impl MetricsReport {
    /// A fresh report with every counter at zero.
    pub fn new() -> (r: MetricsReport)
        ensures
            r.tasks_count == 0,
            r.tasks_failed == 0,
            r.total_execution_time == 0,
    {
        MetricsReport { tasks_count: 0, tasks_failed: 0, total_execution_time: 0 }
    }

    /// Count one more started task.
    pub fn increment_task_count(&mut self)
        requires
            old(self).tasks_count < u32::MAX,
        ensures
            final(self).tasks_count == old(self).tasks_count + 1,
            final(self).tasks_failed == old(self).tasks_failed,
            final(self).total_execution_time == old(self).total_execution_time,
    {
        self.tasks_count += 1;
    }

    /// Count one more task that failed (timed out).
    pub fn increment_tasks_failed(&mut self)
        requires
            old(self).tasks_failed < u32::MAX,
        ensures
            final(self).tasks_failed == old(self).tasks_failed + 1,
            final(self).tasks_count == old(self).tasks_count,
            final(self).total_execution_time == old(self).total_execution_time,
    {
        self.tasks_failed += 1;
    }

    /// Add one successful task's execution time to the running total.
    pub fn increment_total_execution_time(&mut self, execution_time: u32)
        requires
            old(self).total_execution_time + execution_time <= u32::MAX,
        ensures
            final(self).total_execution_time == old(self).total_execution_time
                + execution_time,
            final(self).tasks_count == old(self).tasks_count,
            final(self).tasks_failed == old(self).tasks_failed,
    {
        self.total_execution_time += execution_time;
    }

    /// Average execution time over the tasks that did not fail: the summed
    /// time divided by `tasks_count - tasks_failed`, or zero while no time
    /// has been recorded. Failed tasks never enter the denominator. The
    /// only guard is `total_execution_time > 0`, so a nonzero total paired
    /// with no remaining successful task is left out by precondition.
    pub fn get_average_execution_time(&self) -> (avg: u32)
        requires
            self.total_execution_time > 0 ==> self.tasks_count > self.tasks_failed,
        ensures
            avg == self.spec_average_execution_time(),
    {
        if self.total_execution_time > 0 {
            let avg_time = self.total_execution_time
                / (self.tasks_count - self.tasks_failed);
            avg_time
        } else {
            0
        }
    }

    /// What the average reads as: failed tasks are excluded from the
    /// denominator, and the value is zero while the total is zero.
    pub open spec fn spec_average_execution_time(self) -> int {
        if self.total_execution_time > 0 {
            self.total_execution_time as int
                / (self.tasks_count - self.tasks_failed)
        } else {
            0
        }
    }

    /// How many tasks have been started.
    pub fn get_tasks_count(&self) -> (n: u32)
        ensures
            n == self.tasks_count,
    {
        self.tasks_count
    }

    /// How many tasks have failed.
    pub fn get_tasks_failed(&self) -> (n: u32)
        ensures
            n == self.tasks_failed,
    {
        self.tasks_failed
    }
}

} // verus!
