//! Session registry for the server role.
//!
//! One background accept loop (run by the embedding program) hands every
//! connection's callbacks into a single queue, tagged with an identifier that
//! a shared counter assigns once per accepted connection. This module owns
//! the consumer side: the identifier table, its evolution as events are
//! drained, and the dispatch of each event to the consumer's handler.

use vstd::prelude::*;
use std::collections::HashMap;
use crate::channel::mpsc_recv_timeout;
use crate::trace::{quiet, run_from, step_live, Label};
use crate::transport::sender_shutdown;
use crate::{Handler, Outcome, Pod, WebSocket, WsError};

verus! {

broadcast use vstd::std_specs::hash::group_hash_axioms;

/// What the consumer observes, tagged by connection identifier.
pub enum Event {
    /// A connection finished its handshake; carries its identifier, the
    /// handle bound to it, and the peer's address.
    Open(u32, ws::Sender, String),
    /// The peer of the identified connection closed it.
    Close(u32),
    /// A text message arrived on the identified connection.
    Text(u32, String),
    /// A binary message arrived on the identified connection.
    Binary(u32, Vec<u8>),
    /// No event arrived within the wait window.
    Timeout,
    /// The engine reported a failure, or the background loop is gone.
    Error(WsError),
}

impl Event {
    /// The event with its payload forgotten: what the session-table rules
    /// read of it.
    pub open spec fn label(&self) -> Label {
        match self {
            Event::Open(id, _sender, _addr) => Label::Open(*id),
            Event::Close(id) => Label::Close(*id),
            Event::Text(id, _msg) => Label::Text(*id),
            Event::Binary(id, _buf) => Label::Binary(*id),
            Event::Timeout => Label::Timeout,
            Event::Error(cause) => match cause {
                WsError::Disconnected => Label::Lost,
                _ => Label::Error,
            },
        }
    }
}

/// Maps a wait's outcome to the event the consumer observes: a queued event
/// passes through unchanged, a quiet window becomes `Timeout`, and a queue
/// whose producer is gone becomes a `Disconnected` error.
pub fn event_of_outcome(o: Outcome<Event>) -> (e: Event)
    ensures
        o matches Outcome::Received(ev) ==> e == ev,
        o is TimedOut ==> e is Timeout,
        o is Disconnected ==> (e matches Event::Error(c) && c is Disconnected),
{
    match o {
        Outcome::Received(ev) => ev,
        Outcome::TimedOut => Event::Timeout,
        Outcome::Disconnected => Event::Error(WsError::Disconnected),
    }
}

/// Assigns connection identifiers: each accepted connection gets the counter's
/// current value, and the counter moves up by one, so identifiers are unique
/// and strictly increasing for the registry's whole life.
pub struct IdCounter {
    next: u32,
}

impl IdCounter {
    /// The identifier the next accepted connection will get.
    pub closed spec fn spec_next(&self) -> u32 {
        self.next
    }

    pub fn new() -> (c: IdCounter)
        ensures
            c.spec_next() == 0,
    {
        IdCounter { next: 0 }
    }

    /// The identifier the next accepted connection will get, without
    /// assigning it; lets a caller test that the space is not exhausted.
    pub fn peek(&self) -> (id: u32)
        ensures
            id == self.spec_next(),
    {
        self.next
    }

    /// The next identifier, never handed out before and never again.
    pub fn fresh(&mut self) -> (id: u32)
        requires
            old(self).spec_next() < u32::MAX,
        ensures
            id == old(self).spec_next(),
            final(self).spec_next() == old(self).spec_next() + 1,
    {
        let id = self.next;
        self.next = self.next + 1;
        id
    }
}

/// The server-side session registry.
pub struct Server {
    rx: std::sync::mpsc::Receiver<Event>,
    radio: ws::Sender,
    map: HashMap<u32, WebSocket>,
}

impl Server {
    /// The identifier table: every session opened and not yet closed.
    pub closed spec fn sessions(&self) -> Map<u32, WebSocket> {
        self.map@
    }

    /// A fresh registry around the accept loop's event queue and its
    /// broadcaster; no session is live yet.
    pub fn new(rx: std::sync::mpsc::Receiver<Event>, radio: ws::Sender) -> (s: Server)
        ensures
            s.sessions() == Map::<u32, WebSocket>::empty(),
    {
        Server { rx, radio, map: HashMap::new() }
    }

    /// Receive the next event, waiting up to `timeout_ns` nanoseconds (or
    /// without bound at [`crate::INFINITE`]). Returns `Timeout` when nothing
    /// arrived within the window, and a `Disconnected` error when the accept
    /// loop is gone for good.
    pub fn recv(&self, timeout_ns: u64) -> (e: Event) {
        let outcome = mpsc_recv_timeout(&self.rx, timeout_ns);
        event_of_outcome(outcome)
    }

    /// The identified session is live: its `Open` has been drained and no
    /// `Close` since.
    pub fn is_live(&self, id: u32) -> (b: bool)
        ensures
            b == self.sessions().dom().contains(id),
    {
        self.map.contains_key(&id)
    }

    /// How many sessions are live.
    pub fn session_count(&self) -> (n: usize)
        ensures
            n == self.sessions().len(),
    {
        self.map.len()
    }

    /// Delivers one already-received event to the handler: `Open` makes a
    /// session and enters it in the table, `Close` retires the entry exactly
    /// once, `Text`/`Binary` resolve the live session, and the handler's own
    /// failure is handed back at once. An identified event whose identifier
    /// is not live is a protocol violation (the engine promises `Open` first)
    /// and fails without reaching the handler.
    pub fn apply_event<H: Handler>(&mut self, handler: &mut H, e: Event) -> (r: Pod)
        ensures
            final(self).sessions().dom() == step_live(old(self).sessions().dom(), e.label()),
            e matches Event::Open(id, _sender, addr) ==> {
                &&& final(self).sessions() == old(self).sessions().insert(
                    id,
                    final(self).sessions()[id],
                )
                &&& final(self).sessions()[id].spec_id() == id
                &&& final(self).sessions()[id].spec_address() == addr@
            },
            e matches Event::Close(id) ==> final(self).sessions() == old(self).sessions().remove(
                id,
            ),
            e is Text || e is Binary || e is Timeout || e is Error ==> final(self).sessions()
                == old(self).sessions(),
            !crate::trace::admissible(old(self).sessions().dom(), e.label()) ==> (r matches Err(
                err,
            ) && err is NotConnected),
    {
        match e {
            Event::Open(id, sender, address) => {
                let ws = WebSocket::assemble(id, address, sender);
                self.map.insert(id, ws);
                match self.map.get(&id) {
                    Some(w) => {
                        handler.on_open(w)?;
                        Ok(())
                    },
                    None => Err(WsError::NotConnected),
                }
            },
            Event::Close(id) => {
                match self.map.remove(&id) {
                    Some(w) => {
                        handler.on_close(&w)?;
                        Ok(())
                    },
                    None => Err(WsError::NotConnected),
                }
            },
            Event::Text(id, msg) => {
                match self.map.get(&id) {
                    Some(w) => {
                        handler.on_message(w, msg)?;
                        Ok(())
                    },
                    None => Err(WsError::NotConnected),
                }
            },
            Event::Binary(id, buf) => {
                match self.map.get(&id) {
                    Some(w) => {
                        handler.on_binary(w, buf)?;
                        Ok(())
                    },
                    None => Err(WsError::NotConnected),
                }
            },
            Event::Timeout => {
                handler.on_timeout()?;
                Ok(())
            },
            Event::Error(error) => {
                handler.on_error(error)?;
                Ok(())
            },
        }
    }

    /// Process events with a nanosecond timeout, or [`crate::INFINITE`]:
    /// repeatedly receive and dispatch as [`Server::apply_event`] says,
    /// handing control back on the first quiet window or transport failure,
    /// and at once on a handler failure or a protocol violation. The table
    /// ends exactly where the drained events' steps take it, and a call only
    /// returns success once a quiet event (`Timeout`, or an `Error` the
    /// handler accepted) has ended the drain.
    pub fn process<H: Handler>(&mut self, handler: &mut H, timeout_ns: u64) -> (r: Pod)
        ensures
            exists|drained: Seq<Label>|
                {
                    &&& final(self).sessions().dom() == #[trigger] run_from(
                        old(self).sessions().dom(),
                        drained,
                    )
                    &&& r is Ok ==> drained.len() > 0 && quiet(drained.last())
                },
    {
        let ghost mut drained: Seq<Label> = Seq::empty();
        let mut outcome: Pod = Ok(());
        let mut draining = true;
        // The budget only states that each call drains finitely many events;
        // at one event per iteration it outlasts any stream a process could
        // ever produce. Should it ever run out, the call yields as on a quiet
        // window, through the same dispatch.
        let mut fuel: u64 = u64::MAX;
        while draining && fuel > 0
            invariant
                self.sessions().dom() == run_from(old(self).sessions().dom(), drained),
                draining ==> outcome is Ok,
                !draining && outcome is Ok ==> drained.len() > 0 && quiet(drained.last()),
            decreases fuel,
        {
            fuel = fuel - 1;
            let e = self.recv(timeout_ns);
            let pause = match &e {
                Event::Timeout => true,
                Event::Error(_) => true,
                _ => false,
            };
            let ghost l = e.label();
            proof {
                assert(pause == quiet(l));
            }
            match self.apply_event(handler, e) {
                Ok(()) => {
                    if pause {
                        draining = false;
                    }
                },
                Err(error) => {
                    outcome = Err(error);
                    draining = false;
                },
            }
            proof {
                assert((drained + seq![l]).drop_last() =~= drained);
                drained = drained + seq![l];
            }
        }
        if draining {
            let late = self.apply_event(handler, Event::Timeout);
            proof {
                assert((drained + seq![Label::Timeout]).drop_last() =~= drained);
                drained = drained + seq![Label::Timeout];
                assert(drained.last() == Label::Timeout);
            }
            outcome = late;
        }
        proof {
            assert(self.sessions().dom() == run_from(old(self).sessions().dom(), drained));
            assert(outcome is Ok ==> drained.len() > 0 && quiet(drained.last()));
        }
        outcome
    }

    /// Forces the accept loop, and with it every live connection, to
    /// terminate. Safe to call any number of times, also after the loop has
    /// already exited on its own.
    pub fn shutdown(&self) {
        let _ = sender_shutdown(&self.radio);
    }
}

/// The bind-failure rule of `listen`: when the accept loop ends in its very
/// first moment, its failure is the caller's, synchronously, instead of a
/// half-started registry; a loop still running, or one that ended cleanly,
/// leaves nothing to report.
pub fn listen_verdict(early: Option<Result<(), String>>) -> (r: Pod)
    ensures
        r is Ok <==> !(early matches Some(inner) && inner is Err),
        r matches Err(e) ==> e is Bind,
{
    match early {
        Some(Err(words)) => Err(WsError::Bind(words)),
        _ => Ok(()),
    }
}

} // verus!
