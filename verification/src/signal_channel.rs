//! Unit-signal channels, used to collect one acknowledgement per worker
//! during teardown.
//!
//! The channel itself comes from the crossbeam crate; what a send or a
//! receive yields depends on the other threads, so nothing is promised of
//! any single call, and all counting over the outcomes is verified in
//! `shutdown`.

use vstd::prelude::*;

verus! {

/// What one receive on a channel yielded.
#[derive(Debug, Clone, Copy, PartialEq, Eq, Structural)]
pub enum ReceiveEvent {
    /// A message arrived.
    Received,
    /// No message arrived within the allowed time.
    TimedOut,
    /// Every sender has been dropped and the channel is drained.
    Disconnected,
}

#[verifier::external_type_specification]
#[verifier::external_body]
#[verifier::reject_recursive_types(T)]
pub struct ExSender<T>(crossbeam::channel::Sender<T>);

#[verifier::external_type_specification]
#[verifier::external_body]
#[verifier::reject_recursive_types(T)]
pub struct ExReceiver<T>(crossbeam::channel::Receiver<T>);

/// Relies on crossbeam's channel::unbounded: a fresh unbounded channel,
/// returned as its two endpoints.
#[verifier::external_body]
pub fn create_signal_channel() -> (
    crossbeam::channel::Sender<()>,
    crossbeam::channel::Receiver<()>,
) {
    crossbeam::channel::unbounded()
}

/// Relies on crossbeam's Sender::send: enqueue one signal without
/// blocking (the channel is unbounded); it fails exactly when every
/// receiver has been dropped, which other threads decide, so the outcome
/// is reported and nothing more is promised of it.
#[verifier::external_body]
pub fn send_signal(tx: &crossbeam::channel::Sender<()>) -> bool {
    tx.send(()).is_ok()
}

/// Relies on crossbeam's Receiver::recv: block until one signal arrives
/// (true) or until every sender has been dropped and the channel is
/// drained (false).
#[verifier::external_body]
pub fn recv_signal(rx: &crossbeam::channel::Receiver<()>) -> bool {
    rx.recv().is_ok()
}

/// Relies on crossbeam's Receiver::recv_timeout: wait up to `timeout_ms`
/// milliseconds for one signal; each variant of the result is passed on
/// as the matching event.
#[verifier::external_body]
pub fn recv_signal_timeout(
    rx: &crossbeam::channel::Receiver<()>,
    timeout_ms: u64,
) -> ReceiveEvent {
    match rx.recv_timeout(std::time::Duration::from_millis(timeout_ms)) {
        Ok(()) => ReceiveEvent::Received,
        Err(crossbeam::channel::RecvTimeoutError::Timeout) => ReceiveEvent::TimedOut,
        Err(crossbeam::channel::RecvTimeoutError::Disconnected) => {
            ReceiveEvent::Disconnected
        },
    }
}

} // verus!
