//! Trusted boundary to the event queues.
//!
//! Two channel families carry values between the engine's thread and the
//! consumer thread: `poll_channel` queues (client events) and the standard
//! library's mpsc queues (server events, the client's stop signal, and the
//! client's broadcaster hand-over). Both are unbounded on the sending side,
//! so publishing never stalls the engine. What arrives, and when, depends on
//! the other thread; the wrappers below therefore promise nothing about the
//! values they hand back, only their shape, and the verified code around them
//! holds for every outcome.

use vstd::prelude::*;
use crate::client::Event;
use crate::Outcome;

verus! {

#[verifier::external_type_specification]
#[verifier::external_body]
#[verifier::reject_recursive_types(T)]
pub struct ExPollSender<T>(poll_channel::Sender<T>);

#[verifier::external_type_specification]
#[verifier::external_body]
#[verifier::reject_recursive_types(T)]
pub struct ExPollReceiver<T>(poll_channel::Receiver<T>);

#[verifier::external_type_specification]
#[verifier::external_body]
#[verifier::reject_recursive_types(T)]
pub struct ExMpscSender<T>(std::sync::mpsc::Sender<T>);

#[verifier::external_type_specification]
#[verifier::external_body]
#[verifier::reject_recursive_types(T)]
pub struct ExMpscReceiver<T>(std::sync::mpsc::Receiver<T>);

/// Relies on poll_channel::channel: a fresh unbounded queue, its two ends.
#[verifier::external_body]
pub(crate) fn new_event_channel() -> (poll_channel::Sender<Event>, poll_channel::Receiver<Event>) {
    poll_channel::channel()
}

/// Relies on poll_channel::Sender::send: enqueues the event without blocking;
/// the error means the receiving end is gone.
#[verifier::external_body]
pub(crate) fn poll_send(tx: &poll_channel::Sender<Event>, e: Event) -> bool {
    tx.send(e).is_ok()
}

/// Relies on poll_channel::Receiver::recv_timeout: the next queued event, or
/// the report that none arrived within the window, or that every sender is
/// gone and nothing is queued.
#[verifier::external_body]
pub(crate) fn poll_recv_timeout(
    rx: &poll_channel::Receiver<Event>,
    timeout_ns: u64,
) -> Outcome<Event> {
    let window = std::time::Duration::from_nanos(timeout_ns);
    match rx.recv_timeout(window) {
        Ok(e) => Outcome::Received(e),
        Err(poll_channel::RecvTimeoutError::Timeout) => Outcome::TimedOut,
        Err(poll_channel::RecvTimeoutError::Disconnected) => Outcome::Disconnected,
    }
}

/// Relies on std::sync::mpsc::channel: a fresh unbounded queue for stop
/// signals, its two ends.
#[verifier::external_body]
pub(crate) fn new_stop_channel() -> (
    std::sync::mpsc::Sender<bool>,
    std::sync::mpsc::Receiver<bool>,
) {
    std::sync::mpsc::channel()
}

/// Relies on std::sync::mpsc::channel: a fresh unbounded queue that carries
/// each connection attempt's broadcaster to the consumer side, its two ends.
#[verifier::external_body]
pub(crate) fn new_radio_channel() -> (
    std::sync::mpsc::Sender<ws::Sender>,
    std::sync::mpsc::Receiver<ws::Sender>,
) {
    std::sync::mpsc::channel()
}

/// Relies on std::sync::mpsc::Sender::send: queues a stop request; the
/// result only reports whether the receiving end still exists, so sending
/// twice, or after the background loop has exited, is harmless.
#[verifier::external_body]
pub(crate) fn send_stop(tx: &std::sync::mpsc::Sender<bool>) -> bool {
    tx.send(false).is_ok()
}

/// Relies on std::sync::mpsc::Sender::send: hands the current attempt's
/// broadcaster to the consumer side.
#[verifier::external_body]
pub(crate) fn publish_radio(tx: &std::sync::mpsc::Sender<ws::Sender>, radio: ws::Sender) -> bool {
    tx.send(radio).is_ok()
}

/// Relies on std::sync::mpsc::Receiver::try_recv: the oldest broadcaster
/// published and not yet taken, if any, without waiting.
#[verifier::external_body]
pub(crate) fn take_radio(rx: &std::sync::mpsc::Receiver<ws::Sender>) -> Option<ws::Sender> {
    rx.try_recv().ok()
}

/// Relies on poll_channel::Sender's Clone: the copy feeds the same queue.
#[verifier::external_body]
pub(crate) fn poll_sender_clone(tx: &poll_channel::Sender<Event>) -> poll_channel::Sender<Event> {
    tx.clone()
}

/// Relies on std::sync::mpsc::Sender's Clone: the copy feeds the same queue.
#[verifier::external_body]
pub(crate) fn radio_sender_clone(
    tx: &std::sync::mpsc::Sender<ws::Sender>,
) -> std::sync::mpsc::Sender<ws::Sender> {
    tx.clone()
}

/// Relies on std::sync::mpsc::Receiver::recv_timeout: the next queued server
/// event, or the report that none arrived within the window, or that every
/// sender is gone and nothing is queued.
#[verifier::external_body]
pub(crate) fn mpsc_recv_timeout(
    rx: &std::sync::mpsc::Receiver<crate::server::Event>,
    timeout_ns: u64,
) -> Outcome<crate::server::Event> {
    let window = std::time::Duration::from_nanos(timeout_ns);
    match rx.recv_timeout(window) {
        Ok(e) => Outcome::Received(e),
        Err(std::sync::mpsc::RecvTimeoutError::Timeout) => Outcome::TimedOut,
        Err(std::sync::mpsc::RecvTimeoutError::Disconnected) => Outcome::Disconnected,
    }
}

/// Relies on std::sync::mpsc::Receiver::recv_timeout: whether a stop request
/// arrived within the window.
#[verifier::external_body]
pub(crate) fn stop_requested_within(
    rx: &std::sync::mpsc::Receiver<bool>,
    timeout_ns: u64,
) -> bool {
    let window = std::time::Duration::from_nanos(timeout_ns);
    rx.recv_timeout(window).is_ok()
}

} // verus!
