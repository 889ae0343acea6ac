//! The worker loop's decision rules.
//!
//! Each worker thread repeats a bounded receive on the task channel and
//! acts on what it got. Spawning the threads, receiving boxed futures and
//! emitting the final shutdown acknowledgement are the embedding
//! program's part; what to do on each iteration, and how a finished
//! task's outcome enters the metrics, is decided — and verified — here.

use vstd::prelude::*;

use crate::metrics::MetricsReport;
use crate::signal_channel::ReceiveEvent;
use crate::supervisor::FutureStatus;

verus! {

/// Kinds of worker the pool can run.
#[derive(Debug, Clone, Copy, PartialEq, Eq, Structural)]
pub enum Worker {
    FutureExecutor,
}

/// What a worker does after one bounded receive.
#[derive(Debug, Clone, Copy, PartialEq, Eq, Structural)]
pub enum WorkerAction {
    /// Run the task that arrived, then loop.
    RunTask,
    /// Nothing arrived in this interval: recheck the stop flag and loop.
    KeepWaiting,
    /// Leave the loop and emit the one shutdown acknowledgement.
    Exit,
}

/// One iteration of the worker loop: a worker exits exactly when the stop
/// flag was observed or the channel has closed; it runs a task exactly
/// when one arrived with no stop requested; an empty interval only loops.
pub fn worker_step(stop_requested: bool, event: ReceiveEvent) -> (action: WorkerAction)
    ensures
        action is Exit <==> stop_requested || event is Disconnected,
        action is RunTask <==> !stop_requested && event is Received,
        action is KeepWaiting <==> !stop_requested && event is TimedOut,
{
    if stop_requested {
        WorkerAction::Exit
    } else {
        match event {
            ReceiveEvent::Received => WorkerAction::RunTask,
            ReceiveEvent::TimedOut => WorkerAction::KeepWaiting,
            ReceiveEvent::Disconnected => WorkerAction::Exit,
        }
    }
}

/// Fold one finished task's outcome into the metrics: a failed task only
/// raises the failure counter, a successful one only adds its execution
/// time to the total.
pub fn record_task_outcome(metrics: &mut MetricsReport, status: &FutureStatus)
    requires
        status.failed ==> old(metrics).tasks_failed < u32::MAX,
        !status.failed ==> old(metrics).total_execution_time + status.execution_time
            <= u32::MAX,
    ensures
        status.failed ==> *final(metrics) == (MetricsReport {
            tasks_failed: (old(metrics).tasks_failed + 1) as u32,
            ..*old(metrics)
        }),
        !status.failed ==> *final(metrics) == (MetricsReport {
            total_execution_time: (old(metrics).total_execution_time
                + status.execution_time) as u32,
            ..*old(metrics)
        }),
{
    if status.failed {
        metrics.increment_tasks_failed();
    } else {
        metrics.increment_total_execution_time(status.execution_time);
    }
}

} // verus!
