//! Trusted boundary to the socket engine's cross-thread handle.
//!
//! A `ws::Sender` is the engine's thread-safe capability bound to one
//! connection: it enqueues commands (a message, a close, a shutdown) into the
//! run loop that owns the socket. Every call into the engine made by this
//! crate goes through one of the wrappers below; nothing else about the
//! engine is assumed.

use vstd::prelude::*;
use crate::Message;

verus! {

#[verifier::external_type_specification]
#[verifier::external_body]
pub struct ExSender(ws::Sender);

/// Relies on ws::Sender::send: enqueues one outbound message for the
/// connection this handle is bound to, without blocking on network transfer
/// (a full command queue makes it wait until the run loop drains one slot);
/// the error reports that the command queue is gone.
#[verifier::external_body]
pub(crate) fn sender_send(s: &ws::Sender, msg: Message) -> Result<(), String> {
    let outcome = match msg {
        Message::Text(x) => s.send(ws::Message::Text(x)),
        Message::Binary(x) => s.send(ws::Message::Binary(x)),
    };
    match outcome {
        Ok(()) => Ok(()),
        Err(e) => Err(e.to_string()),
    }
}

/// Relies on ws::Sender::close: asks the connection to close normally.
#[verifier::external_body]
pub(crate) fn sender_close(s: &ws::Sender) -> Result<(), String> {
    match s.close(ws::CloseCode::Normal) {
        Ok(()) => Ok(()),
        Err(e) => Err(e.to_string()),
    }
}

/// Relies on ws::Sender::shutdown: asks the engine's whole run loop to stop;
/// safe to call any number of times, also after the loop has already exited.
#[verifier::external_body]
pub(crate) fn sender_shutdown(s: &ws::Sender) -> Result<(), String> {
    match s.shutdown() {
        Ok(()) => Ok(()),
        Err(e) => Err(e.to_string()),
    }
}

/// Relies on ws::Sender's derived Clone: the copy addresses the same
/// connection as the original.
#[verifier::external_body]
pub(crate) fn sender_clone(s: &ws::Sender) -> ws::Sender {
    s.clone()
}

} // verus!
