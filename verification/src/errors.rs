//! Error taxonomy of the execution engine.
//!
//! Task-level failure (a timeout) is recorded in the metrics and never
//! propagated; the variants here describe structural failures, which the
//! caller treats as fatal.

use vstd::prelude::*;

verus! {

/// What can go wrong inside the engine.
#[derive(Debug, Clone, Copy, PartialEq, Eq, Structural)]
pub enum ExecutorError {
    /// Too many tasks for the available workers.
    Overload,
    /// The executor failed to handle a task's execution.
    Fail,
    /// An unclassified failure.
    Other,
    /// A task ran past its configured timeout.
    Timeout,
    /// The per-second admission rate was exceeded.
    RateLimitExceeded,
    /// The worker pool has no free capacity.
    WorkerPoolFull,
    /// The task channel is not working.
    ChannelConnectionIsNotEstablished,
    /// Workers failed to acknowledge shutdown in time.
    ShutDownError,
}

impl ExecutorError {
    /// A short diagnostic text for this error.
    pub fn message(&self) -> (m: &'static str)
        ensures
            m@.len() > 0,
    {
        let m: &'static str = match self {
            ExecutorError::Overload => "Too much tasks, not enough workers!",
            ExecutorError::Fail => "Executor failed to handle the task execution!",
            ExecutorError::Other => "Something went wrong, please try again later!",
            ExecutorError::Timeout => "Task execution took longer that 5 seconds!",
            ExecutorError::RateLimitExceeded => "Rate Limit exceeded!",
            ExecutorError::WorkerPoolFull => "Worker Pool is Full!",
            ExecutorError::ChannelConnectionIsNotEstablished => "Channel is not working",
            ExecutorError::ShutDownError => "Shutdown error",
        };
        proof {
            reveal_strlit("Too much tasks, not enough workers!");
            reveal_strlit("Executor failed to handle the task execution!");
            reveal_strlit("Something went wrong, please try again later!");
            reveal_strlit("Task execution took longer that 5 seconds!");
            reveal_strlit("Rate Limit exceeded!");
            reveal_strlit("Worker Pool is Full!");
            reveal_strlit("Channel is not working");
            reveal_strlit("Shutdown error");
        }
        m
    }
}

} // verus!
