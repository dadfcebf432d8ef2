//! A polling facade over a callback-driven WebSocket transport.
//!
//! The underlying socket engine drives each connection from its own blocking
//! run loop and reports activity through callbacks. This crate turns those
//! callbacks into typed events drained from a single consumer thread with a
//! bounded-wait `recv`, multiplexes many server connections into one stream
//! tagged by unique identifiers, and keeps a client connected through an
//! automatic reconnect loop. The run loops themselves, and the threads that
//! carry them, live with the embedding program; this crate holds the state
//! and every decision: what each event means, how the session table and the
//! current-connection slot evolve, when a handler is invoked, and when the
//! reconnect loop must stop.

use vstd::prelude::*;

pub mod client;
pub mod server;
pub mod trace;
mod channel;
mod transport;

use transport::{sender_close, sender_send};

verus! {

/// Timeout value that means "wait without bound", measured in nanoseconds.
pub const INFINITE: u64 = u64::MAX;

/// Flexible result
pub type Pod = Result<(), WsError>;

/// Every failure this crate reports.
#[derive(Debug, Clone, PartialEq, Eq)]
pub enum WsError {
    /// The URL handed to `connect` did not parse; carries the parser's words.
    BadUrl(String),
    /// The listener's background loop ended at once; carries its words.
    Bind(String),
    /// No session is open for the operation: either no connection has been
    /// established yet, or an event named an identifier with no live session.
    NotConnected,
    /// The engine reported a failure on a connection; carries its words.
    Transport(String),
    /// The background thread is gone and the event queue is permanently
    /// empty; the actor or registry is only good for teardown now.
    Disconnected,
}

/// An application payload, as the engine carries it.
#[derive(Debug, Clone, PartialEq, Eq)]
pub enum Message {
    Text(String),
    Binary(Vec<u8>),
}

/// What one bounded wait on an event queue can end in.
pub enum Outcome<T> {
    /// An event was queued within the window.
    Received(T),
    /// The window passed with the queue empty.
    TimedOut,
    /// Every producer is gone and the queue is permanently empty.
    Disconnected,
}

/// WebSocket sender: the consumer-visible identity of one live connection.
/// It pairs the connection's unique identifier and peer address with the
/// engine handle that can answer it.
pub struct WebSocket {
    address: String,
    id: u32,
    sender: ws::Sender,
}

impl WebSocket {
    pub(crate) fn assemble(id: u32, address: String, sender: ws::Sender) -> (w: WebSocket)
        ensures
            w.spec_id() == id,
            w.spec_address() == address@,
    {
        WebSocket { id, address, sender }
    }

    /// The identifier, as contracts speak of it.
    pub closed spec fn spec_id(&self) -> u32 {
        self.id
    }

    /// The peer address, as contracts speak of it.
    pub closed spec fn spec_address(&self) -> Seq<char> {
        self.address@
    }

    /// send string or binary
    pub fn send(&self, msg: Message) -> (r: Result<(), WsError>)
        ensures
            r matches Err(e) ==> e is Transport,
    {
        match sender_send(&self.sender, msg) {
            Ok(()) => Ok(()),
            Err(e) => Err(WsError::Transport(e)),
        }
    }

    /// peer address
    pub fn address(&self) -> (r: &str)
        ensures
            r@ == self.spec_address(),
    {
        self.address.as_str()
    }

    /// unique websocket id
    pub fn id(&self) -> (r: u32)
        ensures
            r == self.spec_id(),
    {
        self.id
    }

    /// close the websocket
    pub fn close(&self) -> (r: Pod)
        ensures
            r matches Err(e) ==> e is Transport,
    {
        match sender_close(&self.sender) {
            Ok(()) => Ok(()),
            Err(e) => Err(WsError::Transport(e)),
        }
    }
}

/// The consumer's capability set: one optional method per kind of event,
/// each defaulting to doing nothing. A failure returned by any of them stops
/// the dispatch loop at once and is handed back to its caller.
#[allow(unused)]
pub trait Handler {
    fn on_open(&mut self, ws: &WebSocket) -> Pod {
        Ok(())
    }

    fn on_close(&mut self, ws: &WebSocket) -> Pod {
        Ok(())
    }

    fn on_message(&mut self, ws: &WebSocket, msg: String) -> Pod {
        Ok(())
    }

    fn on_binary(&mut self, ws: &WebSocket, buf: Vec<u8>) -> Pod {
        Ok(())
    }

    fn on_error(&mut self, error: WsError) -> Pod {
        Ok(())
    }

    fn on_timeout(&mut self) -> Pod {
        Ok(())
    }
}

} // verus!
