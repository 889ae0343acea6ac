//! A task-execution engine core: a priority-aware, slot-based admission
//! rate limiter, shared execution metrics, a poll-with-deadline supervisor,
//! the per-iteration worker decision rules, and the shutdown-acknowledgement
//! protocol. The thread pool itself, channels of boxed futures and all other
//! I/O live outside this crate; everything here is verified.

pub mod clock;
pub mod config;
pub mod errors;
pub mod metrics;
pub mod priority;
pub mod rate_limiter;
pub mod shutdown;
pub mod signal_channel;
pub mod slots;
pub mod supervisor;
pub mod worker;
