//! Trusted boundary around the cross-thread channels.
//!
//! Every value crossing a thread boundary travels by ownership handoff
//! through one of these wrappers. A channel is shared mutable state between
//! threads, so nothing deterministic can be promised about what a receive
//! yields or whether a peer is still connected; the wrappers only shape the
//! outside results into plain `Option`/`bool` values that the verified
//! callers handle for every possible outcome.

use vstd::prelude::*;

verus! {

#[verifier::external_type_specification]
#[verifier::external_body]
#[verifier::reject_recursive_types(T)]
pub struct ExSender<T>(kanal::Sender<T>);

#[verifier::external_type_specification]
#[verifier::external_body]
#[verifier::reject_recursive_types(T)]
pub struct ExReceiver<T>(kanal::Receiver<T>);

/// Relies on kanal::Sender::try_send: non-blocking; true when the message
/// was accepted, false when the queue was full or an error left it behind.
#[verifier::external_body]
pub(crate) fn channel_try_send<T>(tx: &kanal::Sender<T>, v: T) -> (accepted: bool) {
    matches!(tx.try_send(v), Ok(true))
}

/// Relies on kanal::Sender::send: blocks until a receiver takes the message
/// or the channel closes; true exactly on delivery.
#[verifier::external_body]
pub(crate) fn channel_send<T>(tx: &kanal::Sender<T>, v: T) -> (sent: bool) {
    tx.send(v).is_ok()
}

/// Relies on kanal::Receiver::try_recv: non-blocking; `Some` with the next
/// pending message, `None` when nothing is pending or the channel is closed.
#[verifier::external_body]
pub(crate) fn channel_try_recv<T>(rx: &kanal::Receiver<T>) -> (r: Option<T>) {
    match rx.try_recv() {
        Ok(v) => v,
        Err(_) => None,
    }
}

/// Relies on kanal::Receiver::recv: blocks for the next message; `None` once
/// the channel is closed and drained.
#[verifier::external_body]
pub(crate) fn channel_recv<T>(rx: &kanal::Receiver<T>) -> (r: Option<T>) {
    rx.recv().ok()
}

/// Relies on kanal::Receiver::is_disconnected: whether every sender is gone,
/// the cooperative shutdown signal of the runner protocol.
#[verifier::external_body]
pub(crate) fn channel_is_disconnected<T>(rx: &kanal::Receiver<T>) -> (r: bool) {
    rx.is_disconnected()
}

/// Publish a frame with latest-wins semantics on a capacity-one display
/// channel: drop whatever undelivered frame is still queued, then queue the
/// new one, never blocking the producer. A reader therefore only ever finds
/// the most recently published frame in the queue.
pub fn publish_latest(
    tx: &kanal::Sender<Vec<u8>>,
    backlog_rx: &kanal::Receiver<Vec<u8>>,
    frame: Vec<u8>,
) -> (accepted: bool) {
    let _ = channel_try_recv(backlog_rx);
    channel_try_send(tx, frame)
}

} // verus!
