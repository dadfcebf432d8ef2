//! Connection actor for the client role.
//!
//! One background loop (run by the embedding program) builds a transport,
//! connects it, runs it to completion, and reconnects after a grace interval
//! unless a stop request has arrived. This module owns everything else: the
//! event queue's consumer end, the current-connection slot, and the decisions
//! the loop acts on.

use vstd::prelude::*;
use crate::channel::{
    new_event_channel, new_radio_channel, new_stop_channel, poll_recv_timeout, publish_radio,
    send_stop, stop_requested_within, take_radio,
};
use crate::trace::{quiet, run_connected, step_connected, Label};
use crate::transport::{sender_clone, sender_send, sender_shutdown};
use crate::{Handler, Message, Outcome, Pod, WebSocket, WsError};

verus! {

/// Whether the URL parser accepts the string; what `url::Url::parse` returns
/// depends on the characters alone.
pub uninterp spec fn url_parse_ok(s: Seq<char>) -> bool;

/// Relies on url::Url::parse: `Ok` exactly when the string is a URL the
/// parser accepts; the error carries the parser's words.
#[verifier::external_body]
fn check_url(url: &str) -> (r: Result<(), String>)
    ensures
        r is Ok <==> url_parse_ok(url@),
{
    match url::Url::parse(url) {
        Ok(_) => Ok(()),
        Err(e) => Err(e.to_string()),
    }
}

/// What the consumer observes on one connection.
pub enum Event {
    /// A connection finished its handshake; carries the handle bound to it.
    Open(ws::Sender),
    /// The peer closed the connection.
    Close,
    /// A text message arrived.
    Text(String),
    /// A binary message arrived.
    Binary(Vec<u8>),
    /// No event arrived within the wait window.
    Timeout,
    /// The engine reported a failure, or the background loop is gone.
    Error(WsError),
}

impl Event {
    /// The event with its payload forgotten: what the current-connection
    /// rules read of it. The client's one connection carries identifier 0.
    pub open spec fn label(&self) -> Label {
        match self {
            Event::Open(_sender) => Label::Open(0),
            Event::Close => Label::Close(0),
            Event::Text(_msg) => Label::Text(0),
            Event::Binary(_buf) => Label::Binary(0),
            Event::Timeout => Label::Timeout,
            Event::Error(cause) => match cause {
                WsError::Disconnected => Label::Lost,
                _ => Label::Error,
            },
        }
    }
}

/// What the background loop does once a connection's run ends.
pub enum LoopStep {
    /// Build a fresh transport and connect again.
    Reconnect,
    /// A stop request arrived: exit the loop for good.
    Exit,
}

/// Whether the dispatch loop keeps draining events or hands control back.
pub enum Flow {
    /// The event was delivered to its handler; drain the next one.
    Proceed,
    /// Nothing happened within the window, or the transport reported a
    /// failure: return to the caller.
    Stop,
}

/// The background loop's decision after one connection run ends: reconnect
/// unless a stop request was observed, and never reconnect once one was.
pub fn reconnect_verdict(stop_requested: bool) -> (step: LoopStep)
    ensures
        step is Exit <==> stop_requested,
{
    if stop_requested {
        LoopStep::Exit
    } else {
        LoopStep::Reconnect
    }
}

/// The default grace interval: how long the background loop waits for a stop
/// request after a connection run ends, before it reconnects.
pub const GRACE_INTERVAL_NS: u64 = 3_000_000_000;

/// What the background loop needs: handed out by [`Client::connect`], owned
/// by the loop for its whole life. Holding one is the only way to feed a
/// client's event queue, so a `connect` that fails hands the caller nothing
/// to start a loop with.
pub struct BackgroundJob {
    url: String,
    events: poll_channel::Sender<Event>,
    mover: std::sync::mpsc::Sender<ws::Sender>,
    exit: std::sync::mpsc::Receiver<bool>,
}

impl BackgroundJob {
    /// The URL the loop connects to, as contracts speak of it.
    pub closed spec fn spec_url(&self) -> Seq<char> {
        self.url@
    }

    /// The URL the loop connects to.
    pub fn url(&self) -> (r: &str)
        ensures
            r@ == self.spec_url(),
    {
        self.url.as_str()
    }

    /// The producing end of the event queue; the loop hands a clone to each
    /// transport it builds.
    pub fn event_sender(&self) -> &poll_channel::Sender<Event> {
        &self.events
    }

    /// Queues one event for the consumer; never blocks. The result reports
    /// whether the consumer end still exists.
    pub fn forward(&self, e: Event) -> bool {
        crate::channel::poll_send(&self.events, e)
    }

    /// Publishes a fresh attempt's broadcaster, so the consumer's `close`
    /// and `send` target the current attempt.
    pub fn publish(&self, radio: ws::Sender) -> bool {
        publish_radio(&self.mover, radio)
    }

    /// Waits up to `window_ns` for a stop request, then decides: exit if one
    /// arrived, reconnect if the window passed quietly.
    pub fn grace(&self, window_ns: u64) -> LoopStep {
        let stop = stop_requested_within(&self.exit, window_ns);
        reconnect_verdict(stop)
    }
}

/// The client-side connection actor.
pub struct Client {
    address: String,
    started: bool,
    sender: Option<ws::Sender>,
    radio: Option<ws::Sender>,
    session: Option<WebSocket>,
    rx: poll_channel::Receiver<Event>,
    events: poll_channel::Sender<Event>,
    run: std::sync::mpsc::Sender<bool>,
    exit: Option<std::sync::mpsc::Receiver<bool>>,
    mover: std::sync::mpsc::Sender<ws::Sender>,
    connector: std::sync::mpsc::Receiver<ws::Sender>,
}

impl Client {
    /// A session is open: an `Open` event has been observed and no `Close`
    /// or disconnection since.
    pub closed spec fn connected(&self) -> bool {
        self.sender is Some
    }

    /// A broadcaster for the current connection attempt has been received.
    pub closed spec fn has_radio(&self) -> bool {
        self.radio is Some
    }

    /// The current session wrapper: installed by the dispatch loop on
    /// `Open`, retired on `Close` or disconnection.
    pub closed spec fn spec_session(&self) -> Option<WebSocket> {
        self.session
    }

    /// A background loop has been started for this actor.
    pub closed spec fn started(&self) -> bool {
        self.started
    }

    /// `connect` has not run yet: the loop's stop-signal end is still here.
    pub closed spec fn can_spawn(&self) -> bool {
        self.exit is Some
    }

    /// The URL this actor connects to, as contracts speak of it.
    pub closed spec fn spec_address(&self) -> Seq<char> {
        self.address@
    }

    /// Create an empty client, not yet bound to any URL or background loop.
    pub fn new() -> (c: Client)
        ensures
            !c.connected(),
            !c.has_radio(),
            c.spec_session() is None,
            !c.started(),
            c.can_spawn(),
            c.spec_address() == Seq::<char>::empty(),
    {
        let (events, rx) = new_event_channel();
        let (run, exit) = new_stop_channel();
        let (mover, connector) = new_radio_channel();
        Client {
            address: String::new(),
            started: false,
            sender: None,
            radio: None,
            session: None,
            rx,
            events,
            run,
            exit: Some(exit),
            mover,
            connector,
        }
    }

    /// Validates the URL, and only on success hands out the background job:
    /// a malformed URL fails here, before anything an embedding program
    /// could start a loop with exists, and leaves the actor untouched.
    pub fn connect(&mut self, url: &str) -> (r: Result<BackgroundJob, WsError>)
        requires
            old(self).can_spawn(),
        ensures
            r is Ok <==> url_parse_ok(url@),
            r matches Err(e) ==> e is BadUrl && *final(self) == *old(self),
            r matches Ok(job) ==> {
                &&& final(self).started()
                &&& !final(self).can_spawn()
                &&& final(self).spec_address() == url@
                &&& job.spec_url() == url@
                &&& final(self).connected() == old(self).connected()
                &&& final(self).has_radio() == old(self).has_radio()
                &&& final(self).spec_session() == old(self).spec_session()
            },
    {
        match check_url(url) {
            Err(words) => Err(WsError::BadUrl(words)),
            Ok(()) => {
                self.address = url.to_owned();
                self.started = true;
                let exit = self.exit.take().unwrap();
                let job = BackgroundJob {
                    url: url.to_owned(),
                    events: crate::channel::poll_sender_clone(&self.events),
                    mover: crate::channel::radio_sender_clone(&self.mover),
                    exit,
                };
                Ok(job)
            },
        }
    }

    /// A session is currently open.
    pub fn is_open(&self) -> (b: bool)
        ensures
            b == self.connected(),
    {
        self.sender.is_some()
    }

    /// Folds one wait's outcome into the actor and names the event the
    /// consumer observes: a queued event is returned as it came, a quiet
    /// window becomes `Timeout`, and a dead queue becomes the `Disconnected`
    /// error. Observing an `Open` caches the new connection's handle;
    /// observing a `Close` or a disconnection removes it.
    pub fn observe_outcome(&mut self, o: Outcome<Event>) -> (e: Event)
        ensures
            final(self).spec_address() == old(self).spec_address(),
            final(self).started() == old(self).started(),
            final(self).can_spawn() == old(self).can_spawn(),
            final(self).spec_session() == old(self).spec_session(),
            o matches Outcome::Received(ev) ==> e == ev,
            o is TimedOut ==> e is Timeout && *final(self) == *old(self),
            o is Disconnected ==> (e matches Event::Error(c) && c is Disconnected),
            final(self).connected() == step_connected(old(self).connected(), e.label()),
            (e matches Event::Error(c) && c is Disconnected) ==> !final(self).has_radio(),
            !(e matches Event::Error(c) && c is Disconnected) ==> final(self).has_radio() == old(
                self,
            ).has_radio(),
    {
        match o {
            Outcome::Received(event) => {
                match event {
                    Event::Open(s) => {
                        self.sender = Some(sender_clone(&s));
                        Event::Open(s)
                    },
                    Event::Close => {
                        self.sender = None;
                        Event::Close
                    },
                    Event::Error(WsError::Disconnected) => {
                        // The producing side never queues this cause; should
                        // one arrive anyway, keep the promise that it always
                        // means the handles are cleared.
                        self.radio = None;
                        self.sender = None;
                        Event::Error(WsError::Disconnected)
                    },
                    other => other,
                }
            },
            Outcome::TimedOut => Event::Timeout,
            Outcome::Disconnected => {
                self.radio = None;
                self.sender = None;
                Event::Error(WsError::Disconnected)
            },
        }
    }

    /// Receive the next event, waiting up to `timeout_ns` nanoseconds (or
    /// without bound at [`crate::INFINITE`]). Returns `Timeout` when nothing
    /// arrived within the window, and a `Disconnected` error when the
    /// background loop is gone for good; what each outcome of the wait yields
    /// and caches is [`Client::observe_outcome`]'s exact contract.
    pub fn recv(&mut self, timeout_ns: u64) -> (e: Event)
        ensures
            final(self).spec_address() == old(self).spec_address(),
            final(self).started() == old(self).started(),
            final(self).can_spawn() == old(self).can_spawn(),
            final(self).spec_session() == old(self).spec_session(),
            final(self).connected() == step_connected(old(self).connected(), e.label()),
            (e matches Event::Error(c) && c is Disconnected) ==> !final(self).has_radio(),
    {
        if let Some(radio) = take_radio(&self.connector) {
            self.radio = Some(radio);
        }
        let outcome = poll_recv_timeout(&self.rx, timeout_ns);
        self.observe_outcome(outcome)
    }

    /// Forwards to the current session's connection; with none open it fails
    /// at once, recoverably, and touches no transport.
    pub fn send(&self, msg: Message) -> (r: Pod)
        ensures
            r matches Err(e) && e is NotConnected <==> !self.connected(),
            r matches Err(e) ==> e is NotConnected || e is Transport,
    {
        match &self.sender {
            Some(sender) => match sender_send(sender, msg) {
                Ok(()) => Ok(()),
                Err(words) => Err(WsError::Transport(words)),
            },
            None => Err(WsError::NotConnected),
        }
    }

    /// Close the socket: asks the current attempt's run loop to terminate.
    /// The background loop then reconnects after the grace interval; stopping
    /// it for good is [`Client::shutdown`]'s job.
    pub fn close(&self) {
        if let Some(radio) = &self.radio {
            let _ = sender_shutdown(radio);
        }
    }

    /// Tear the actor down: force the current connection's run loop to stop
    /// and queue a stop request for the background loop, so its next grace
    /// wait exits instead of reconnecting. Safe to call any number of times,
    /// also after the loop has already exited on its own.
    pub fn shutdown(&self) {
        if let Some(radio) = &self.radio {
            let _ = sender_shutdown(radio);
        }
        let _ = send_stop(&self.run);
    }

    /// Delivers one already-received event to the handler: `Open` installs
    /// the new connection's session, `Close` retires the session and the
    /// cached handle, a disconnection clears everything, `Text`/`Binary`
    /// resolve the current session, and the handler's own failure is handed
    /// back at once. A `Close`, `Text` or `Binary` with no session open is a
    /// protocol violation (the engine promises `Open` first) and fails
    /// without reaching the handler.
    pub fn dispatch_event<H: Handler>(&mut self, handler: &mut H, e: Event) -> (r: Result<
        Flow,
        WsError,
    >)
        ensures
            final(self).spec_address() == old(self).spec_address(),
            final(self).started() == old(self).started(),
            final(self).can_spawn() == old(self).can_spawn(),
            final(self).connected() == step_connected(old(self).connected(), e.label()),
            !(e matches Event::Error(c) && c is Disconnected) ==> final(self).has_radio() == old(
                self,
            ).has_radio(),
            e is Open ==> {
                &&& final(self).spec_session() matches Some(w) && w.spec_id() == 0
                    && w.spec_address() == old(self).spec_address()
                &&& r matches Ok(f) ==> f is Proceed
            },
            e is Close ==> final(self).spec_session() is None && {
                if old(self).spec_session() is Some {
                    r matches Ok(f) ==> f is Proceed
                } else {
                    r matches Err(err) && err is NotConnected
                }
            },
            e is Text || e is Binary ==> *final(self) == *old(self) && {
                if old(self).spec_session() is Some {
                    r matches Ok(f) ==> f is Proceed
                } else {
                    r matches Err(err) && err is NotConnected
                }
            },
            e is Timeout ==> *final(self) == *old(self) && (r matches Ok(f) ==> f is Stop),
            e matches Event::Error(c) ==> (r matches Ok(f) ==> f is Stop) && (if c is Disconnected {
                final(self).spec_session() is None && !final(self).has_radio()
            } else {
                *final(self) == *old(self)
            }),
    {
        match e {
            Event::Open(sender) => {
                self.sender = Some(sender_clone(&sender));
                let ws = WebSocket::assemble(0, self.address.clone(), sender);
                self.session = Some(ws);
                match &self.session {
                    Some(w) => {
                        handler.on_open(w)?;
                        Ok(Flow::Proceed)
                    },
                    None => Err(WsError::NotConnected),
                }
            },
            Event::Close => {
                self.sender = None;
                match self.session.take() {
                    Some(w) => {
                        handler.on_close(&w)?;
                        Ok(Flow::Proceed)
                    },
                    None => Err(WsError::NotConnected),
                }
            },
            Event::Text(msg) => {
                match &self.session {
                    Some(w) => {
                        handler.on_message(w, msg)?;
                        Ok(Flow::Proceed)
                    },
                    None => Err(WsError::NotConnected),
                }
            },
            Event::Binary(buf) => {
                match &self.session {
                    Some(w) => {
                        handler.on_binary(w, buf)?;
                        Ok(Flow::Proceed)
                    },
                    None => Err(WsError::NotConnected),
                }
            },
            Event::Timeout => {
                handler.on_timeout()?;
                Ok(Flow::Stop)
            },
            Event::Error(error) => {
                let lost = match &error {
                    WsError::Disconnected => true,
                    _ => false,
                };
                if lost {
                    self.sender = None;
                    self.radio = None;
                    self.session = None;
                }
                handler.on_error(error)?;
                Ok(Flow::Stop)
            },
        }
    }

    /// Process events with a nanosecond timeout, or [`crate::INFINITE`]:
    /// repeatedly receive and dispatch, handing control back on the first
    /// quiet window or failure event, and at once on a handler failure. The
    /// current-connection slot ends exactly where the drained events' steps
    /// take it, and a call only returns success once a quiet event
    /// (`Timeout`, or an `Error` the handler accepted) has ended the drain.
    pub fn process<H: Handler>(&mut self, handler: &mut H, timeout_ns: u64) -> (r: Pod)
        ensures
            final(self).spec_address() == old(self).spec_address(),
            final(self).started() == old(self).started(),
            final(self).can_spawn() == old(self).can_spawn(),
            exists|drained: Seq<Label>|
                {
                    &&& final(self).connected() == #[trigger] run_connected(
                        old(self).connected(),
                        drained,
                    )
                    &&& r is Ok ==> drained.len() > 0 && quiet(drained.last())
                },
    {
        let ghost mut drained: Seq<Label> = Seq::empty();
        let mut outcome: Pod = Ok(());
        let mut draining = true;
        // The budget only states that each call drains finitely many events;
        // at one event per iteration it outlasts any stream a process could
        // ever produce. Should it ever run out, the call yields as on a quiet
        // window, through the same dispatch.
        let mut fuel: u64 = u64::MAX;
        while draining && fuel > 0
            invariant
                self.spec_address() == old(self).spec_address(),
                self.started() == old(self).started(),
                self.can_spawn() == old(self).can_spawn(),
                self.connected() == run_connected(old(self).connected(), drained),
                draining ==> outcome is Ok,
                !draining && outcome is Ok ==> drained.len() > 0 && quiet(drained.last()),
            decreases fuel,
        {
            fuel = fuel - 1;
            let e = self.recv(timeout_ns);
            let ghost l = e.label();
            match self.dispatch_event(handler, e) {
                Ok(Flow::Proceed) => {},
                Ok(Flow::Stop) => {
                    draining = false;
                },
                Err(error) => {
                    outcome = Err(error);
                    draining = false;
                },
            }
            proof {
                assert((drained + seq![l]).drop_last() =~= drained);
                drained = drained + seq![l];
            }
        }
        if draining {
            let late = self.dispatch_event(handler, Event::Timeout);
            proof {
                assert((drained + seq![Label::Timeout]).drop_last() =~= drained);
                drained = drained + seq![Label::Timeout];
                assert(drained.last() == Label::Timeout);
            }
            outcome = match late {
                Ok(_flow) => Ok(()),
                Err(error) => Err(error),
            };
        }
        proof {
            assert(self.connected() == run_connected(old(self).connected(), drained));
            assert(outcome is Ok ==> drained.len() > 0 && quiet(drained.last()));
        }
        outcome
    }

    /// The consuming end of the event queue, for embedding programs that
    /// group several receivers behind one poll.
    pub fn event_receiver(&self) -> &poll_channel::Receiver<Event> {
        &self.rx
    }
}

} // verus!
