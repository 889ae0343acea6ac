//! The coordinated-shutdown protocol.
//!
//! On teardown every worker emits exactly one acknowledgement on a signal
//! channel. A forced shutdown succeeds exactly when `worker_count`
//! acknowledgements arrive before the deadline; any shortfall — a late
//! clock, an empty interval, a broken channel — is fatal and never
//! retried.

use vstd::prelude::*;

use crate::clock;
use crate::errors::ExecutorError;
use crate::signal_channel::{
    create_signal_channel, recv_signal, recv_signal_timeout, send_signal, ReceiveEvent,
};

verus! {

/// Builds the channel that carries the shutdown acknowledgements.
pub struct ShutdownChannelBuilder;

impl ShutdownChannelBuilder {
    /// A fresh acknowledgement channel, proven live by one round trip.
    pub fn create_channel() -> (r: Result<
        (crossbeam::channel::Sender<()>, crossbeam::channel::Receiver<()>),
        ExecutorError,
    >)
        ensures
            r matches Err(e) ==> e is ChannelConnectionIsNotEstablished,
    {
        let (tx, rx) = create_signal_channel();
        ShutdownChannelBuilder::validate_channel(tx, rx)
    }

    /// Send one signal through the channel and take it back out. The
    /// endpoints are handed back exactly when both steps went through;
    /// otherwise the channel is reported as not established.
    pub fn validate_channel(
        tx: crossbeam::channel::Sender<()>,
        rx: crossbeam::channel::Receiver<()>,
    ) -> (r: Result<
        (crossbeam::channel::Sender<()>, crossbeam::channel::Receiver<()>),
        ExecutorError,
    >)
        ensures
            r matches Ok(endpoints) ==> endpoints == (tx, rx),
            r matches Err(e) ==> e is ChannelConnectionIsNotEstablished,
    {
        if !send_signal(&tx) {
            return Err(ExecutorError::ChannelConnectionIsNotEstablished);
        }
        if !recv_signal(&rx) {
            return Err(ExecutorError::ChannelConnectionIsNotEstablished);
        }
        Ok((tx, rx))
    }
}

/// How far the acknowledgement count has come.
#[derive(Debug, Clone, Copy, PartialEq, Eq, Structural)]
pub enum ShutdownProgress {
    /// Every worker has acknowledged: the shutdown succeeded.
    Complete,
    /// Acknowledgements are still owed and time remains.
    Waiting,
    /// The deadline passed, or the channel failed: the shutdown is fatal.
    Fatal,
}

/// Counts acknowledgements against the worker count.
#[derive(Debug, Clone, Copy, PartialEq, Eq, Structural)]
pub struct ShutdownTracker {
    pub acks_received: usize,
    pub worker_count: usize,
}

impl ShutdownTracker {
    /// A tracker that has seen no acknowledgement yet.
    pub fn new(worker_count: usize) -> (t: ShutdownTracker)
        ensures
            t.acks_received == 0,
            t.worker_count == worker_count,
    {
        ShutdownTracker { acks_received: 0, worker_count }
    }

    /// Advance the protocol by one observation, made at `now_ms`. Once the
    /// deadline has passed, or on anything but an acknowledgement, the
    /// shutdown is fatal and the count stands. An acknowledgement in time
    /// is counted, and the protocol completes exactly when the count
    /// reaches the worker count.
    pub fn on_event(
        &mut self,
        now_ms: u64,
        deadline_ms: u64,
        event: ReceiveEvent,
    ) -> (p: ShutdownProgress)
        requires
            old(self).acks_received < old(self).worker_count,
        ensures
            final(self).worker_count == old(self).worker_count,
            now_ms >= deadline_ms ==> p is Fatal && *final(self) == *old(self),
            now_ms < deadline_ms && !(event is Received) ==> p is Fatal && *final(self)
                == *old(self),
            now_ms < deadline_ms && event is Received ==> {
                &&& final(self).acks_received == old(self).acks_received + 1
                &&& (p is Complete <==> final(self).acks_received
                    == final(self).worker_count)
                &&& (p is Waiting <==> final(self).acks_received
                    < final(self).worker_count)
            },
    {
        if now_ms >= deadline_ms {
            return ShutdownProgress::Fatal;
        }
        match event {
            ReceiveEvent::Received => {
                self.acks_received += 1;
                if self.acks_received == self.worker_count {
                    ShutdownProgress::Complete
                } else {
                    ShutdownProgress::Waiting
                }
            },
            _ => ShutdownProgress::Fatal,
        }
    }
}

/// The protocol as a function of what is observed: starting from `acks`
/// acknowledgements already counted, a run over the observations — each a
/// clock reading paired with what the receive yielded — succeeds when the
/// count reaches `worker_count` before anything fatal is seen.
pub open spec fn spec_run_succeeds(
    acks: nat,
    worker_count: nat,
    deadline_ms: u64,
    events: Seq<(u64, ReceiveEvent)>,
) -> bool
    decreases events.len(),
{
    if acks >= worker_count {
        true
    } else if events.len() == 0 {
        false
    } else if events[0].0 >= deadline_ms {
        false
    } else if !(events[0].1 is Received) {
        false
    } else {
        spec_run_succeeds(acks + 1, worker_count, deadline_ms, events.drop_first())
    }
}

/// Shutdown law: a forced shutdown succeeds if and only if its first
/// `worker_count` observations are acknowledgements, every one arriving
/// before the deadline. Fewer observations, a late one, an empty interval
/// or a broken channel anywhere among them, and it is fatal.
pub proof fn lemma_shutdown_success_iff_acks(
    worker_count: nat,
    deadline_ms: u64,
    events: Seq<(u64, ReceiveEvent)>,
)
    ensures
        spec_run_succeeds(0, worker_count, deadline_ms, events) <==> worker_count
            <= events.len() && (forall|i: int|
            0 <= i < worker_count ==> (#[trigger] events[i]).0 < deadline_ms
                && events[i].1 is Received),
{
    lemma_run_succeeds_characterized(0, worker_count, deadline_ms, events);
}

proof fn lemma_run_succeeds_characterized(
    acks: nat,
    worker_count: nat,
    deadline_ms: u64,
    events: Seq<(u64, ReceiveEvent)>,
)
    ensures
        spec_run_succeeds(acks, worker_count, deadline_ms, events) <==> worker_count
            - acks <= events.len() && (forall|i: int|
            0 <= i < worker_count - acks ==> (#[trigger] events[i]).0 < deadline_ms
                && events[i].1 is Received),
    decreases events.len(),
{
    if acks >= worker_count {
    } else if events.len() == 0 {
    } else if events[0].0 >= deadline_ms || !(events[0].1 is Received) {
        assert(!spec_run_succeeds(acks, worker_count, deadline_ms, events));
        assert(0 < worker_count - acks);
    } else {
        let rest = events.drop_first();
        lemma_run_succeeds_characterized(acks + 1, worker_count, deadline_ms, rest);
        assert(forall|i: int|
            0 <= i < rest.len() ==> #[trigger] rest[i] == events[i + 1]);
        if worker_count - (acks + 1) <= rest.len() && (forall|i: int|
            0 <= i < worker_count - (acks + 1) ==> (#[trigger] rest[i]).0 < deadline_ms
                && rest[i].1 is Received) {
            assert forall|i: int| 0 <= i < worker_count - acks implies (
            #[trigger] events[i]).0 < deadline_ms && events[i].1 is Received by {
                if i > 0 {
                    assert(rest[i - 1] == events[i]);
                }
            }
        }
    }
}

/// Block until every worker has acknowledged the shutdown, against the
/// given deadline. `Ok` carries the full acknowledgement count — it is
/// returned exactly when `worker_count` acknowledgements arrived, each
/// within the time that then remained; anything else is the fatal
/// `ShutDownError`, and the collection is never retried.
pub fn await_shutdown_acks(
    rx: &crossbeam::channel::Receiver<()>,
    worker_count: usize,
    deadline_ms: u64,
) -> (r: Result<usize, ExecutorError>)
    ensures
        r matches Ok(n) ==> n == worker_count,
        r matches Err(e) ==> e is ShutDownError,
{
    let mut tracker = ShutdownTracker::new(worker_count);
    while tracker.acks_received < worker_count
        invariant
            tracker.worker_count == worker_count,
            tracker.acks_received <= worker_count,
        decreases worker_count - tracker.acks_received,
    {
        let now = clock::now_millis();
        if now >= deadline_ms {
            return Err(ExecutorError::ShutDownError);
        }
        let remaining = deadline_ms - now;
        let event = recv_signal_timeout(rx, remaining);
        match tracker.on_event(now, deadline_ms, event) {
            ShutdownProgress::Fatal => {
                return Err(ExecutorError::ShutDownError);
            },
            _ => {},
        }
    }
    Ok(tracker.acks_received)
}

} // verus!
