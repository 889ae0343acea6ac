//! Immutable engine parameters.
//!
//! Durations are carried as whole milliseconds so that every rule that
//! reads them can be verified; the worker count comes from the embedding
//! program (about three quarters of the machine's logical cores, with a
//! floor of one), since probing the machine is outside this crate.

use vstd::prelude::*;

verus! {

/// Default cap on admissions per second.
pub const DEFAULT_RATE_LIMIT: usize = 5;

/// Default per-task timeout, in milliseconds.
pub const DEFAULT_TASK_TIMEOUT_MS: u64 = 5000;

/// Default deadline for collecting shutdown acknowledgements, in milliseconds.
pub const DEFAULT_SHUTDOWN_TIMEOUT_MS: u64 = 10000;

/// The engine's configuration, fixed at pool construction.
#[derive(Debug, Clone, Copy, PartialEq, Eq, Structural)]
pub struct ExecutorConfig {
    pub rate_limit_per_sec: usize,
    pub task_timeout_ms: u64,
    pub worker_count: usize,
    pub shutdown_timeout_ms: u64,
}

impl ExecutorConfig {
    /// The default configuration for a pool of `worker_count` workers.
    pub fn with_worker_count(worker_count: usize) -> (c: ExecutorConfig)
        ensures
            c.rate_limit_per_sec == DEFAULT_RATE_LIMIT,
            c.task_timeout_ms == DEFAULT_TASK_TIMEOUT_MS,
            c.worker_count == worker_count,
            c.shutdown_timeout_ms == DEFAULT_SHUTDOWN_TIMEOUT_MS,
    {
        ExecutorConfig {
            rate_limit_per_sec: DEFAULT_RATE_LIMIT,
            task_timeout_ms: DEFAULT_TASK_TIMEOUT_MS,
            worker_count,
            shutdown_timeout_ms: DEFAULT_SHUTDOWN_TIMEOUT_MS,
        }
    }

    /// How many worker threads the pool runs.
    pub fn get_total_workers(&self) -> (n: usize)
        ensures
            n == self.worker_count,
    {
        self.worker_count
    }

    /// The per-task timeout, in milliseconds.
    pub fn get_task_timeout(&self) -> (t: u64)
        ensures
            t == self.task_timeout_ms,
    {
        self.task_timeout_ms
    }

    /// The shutdown deadline, in milliseconds.
    pub fn get_shutdown_timeout(&self) -> (t: u64)
        ensures
            t == self.shutdown_timeout_ms,
    {
        self.shutdown_timeout_ms
    }
}

} // verus!
