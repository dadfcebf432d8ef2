use ws2::client::{Client, Event, LoopStep};
use ws2::{Handler, Message, Outcome, Pod, WebSocket, WsError};

/// A freshly built (never run) socket: its broadcaster handles are enough to
/// exercise every handle-carrying path without any network, as long as the
/// socket stays alive.
fn mk_socket() -> ws::WebSocket<impl ws::Factory> {
    ws::Builder::new()
        .build(|_out: ws::Sender| move |_msg: ws::Message| -> ws::Result<()> { Ok(()) })
        .unwrap()
}

struct Recorder {
    log: Vec<String>,
    fail_on_message: bool,
}

impl Recorder {
    fn new() -> Recorder {
        Recorder { log: Vec::new(), fail_on_message: false }
    }
}

impl Handler for Recorder {
    fn on_open(&mut self, ws: &WebSocket) -> Pod {
        self.log.push(format!("open:{}:{}", ws.id(), ws.address()));
        Ok(())
    }

    fn on_close(&mut self, ws: &WebSocket) -> Pod {
        self.log.push(format!("close:{}", ws.id()));
        Ok(())
    }

    fn on_message(&mut self, ws: &WebSocket, msg: String) -> Pod {
        self.log.push(format!("message:{}:{}", ws.id(), msg));
        if self.fail_on_message {
            return Err(WsError::Transport("handler refused".to_string()));
        }
        Ok(())
    }

    fn on_binary(&mut self, ws: &WebSocket, buf: Vec<u8>) -> Pod {
        self.log.push(format!("binary:{}:{}", ws.id(), buf.len()));
        Ok(())
    }

    fn on_error(&mut self, _error: WsError) -> Pod {
        self.log.push("error".to_string());
        Ok(())
    }

    fn on_timeout(&mut self) -> Pod {
        self.log.push("timeout".to_string());
        Ok(())
    }
}

const MS: u64 = 1_000_000;

#[test]
fn connect_rejects_malformed_url() {
    let mut c = Client::new();
    let r = c.connect("no scheme at all");
    assert!(matches!(r, Err(WsError::BadUrl(_))));
    assert!(!c.is_open());
    // A rejected connect leaves the actor reusable: a well-formed URL is
    // still accepted afterwards.
    let r2 = c.connect("ws://127.0.0.1:1/");
    assert!(r2.is_ok());
}

#[test]
fn connect_accepts_url_and_hands_out_job() {
    let mut c = Client::new();
    let job = c.connect("ws://example.invalid:9000/feed").unwrap();
    assert_eq!(job.url(), "ws://example.invalid:9000/feed");
}

#[test]
fn recv_times_out_within_bounds() {
    let mut c = Client::new();
    let before = std::time::Instant::now();
    let e = c.recv(100 * MS);
    let elapsed = before.elapsed();
    assert!(matches!(e, Event::Timeout));
    assert!(elapsed >= std::time::Duration::from_millis(100));
    assert!(elapsed < std::time::Duration::from_secs(5));
}

#[test]
fn recv_keeps_timing_out_without_a_connection() {
    let mut c = Client::new();
    let _job = c.connect("ws://127.0.0.1:1/").unwrap();
    for _ in 0..3 {
        let e = c.recv(10 * MS);
        assert!(matches!(e, Event::Timeout));
    }
    assert!(!c.is_open());
    let r = c.send(Message::Text("hello".to_string()));
    assert!(matches!(r, Err(WsError::NotConnected)));
}

#[test]
fn recv_passes_transport_errors_through() {
    let mut c = Client::new();
    let job = c.connect("ws://127.0.0.1:1/").unwrap();
    assert!(job.forward(Event::Error(WsError::Transport("refused".to_string()))));
    let e = c.recv(500 * MS);
    match e {
        Event::Error(WsError::Transport(words)) => assert_eq!(words, "refused"),
        _ => panic!("expected the forwarded transport error"),
    }
    // The actor stays usable: the next wait simply times out again.
    assert!(matches!(c.recv(10 * MS), Event::Timeout));
}

#[test]
fn recv_open_caches_the_handle() {
    let socket = mk_socket();
    let mut c = Client::new();
    let job = c.connect("ws://127.0.0.1:1/").unwrap();
    assert!(!c.is_open());
    assert!(job.forward(Event::Open(socket.broadcaster())));
    let e = c.recv(500 * MS);
    assert!(matches!(e, Event::Open(_)));
    assert!(c.is_open());
    // With a cached handle, send reaches the transport's queue.
    let r = c.send(Message::Text("hello".to_string()));
    assert!(r.is_ok());
}

#[test]
fn process_dispatches_events_in_order() {
    let socket = mk_socket();
    let mut c = Client::new();
    let job = c.connect("ws://127.0.0.1:1/").unwrap();
    job.forward(Event::Open(socket.broadcaster()));
    job.forward(Event::Text("ping".to_string()));
    job.forward(Event::Binary(vec![1, 2, 3]));
    job.forward(Event::Close);
    let mut h = Recorder::new();
    let r = c.process(&mut h, 50 * MS);
    assert!(r.is_ok());
    assert_eq!(
        h.log,
        vec![
            "open:0:ws://127.0.0.1:1/".to_string(),
            "message:0:ping".to_string(),
            "binary:0:3".to_string(),
            "close:0".to_string(),
            "timeout".to_string(),
        ]
    );
    // The drained close retired the session: the client is no longer open.
    assert!(!c.is_open());
}

#[test]
fn close_clears_the_cached_handle() {
    let socket = mk_socket();
    let mut c = Client::new();
    let job = c.connect("ws://127.0.0.1:1/").unwrap();
    job.forward(Event::Open(socket.broadcaster()));
    assert!(matches!(c.recv(500 * MS), Event::Open(_)));
    assert!(c.is_open());
    job.forward(Event::Close);
    assert!(matches!(c.recv(500 * MS), Event::Close));
    assert!(!c.is_open());
    let r = c.send(Message::Text("after close".to_string()));
    assert!(matches!(r, Err(WsError::NotConnected)));
}

#[test]
fn observe_outcome_maps_exactly() {
    let socket = mk_socket();
    let mut c = Client::new();
    assert!(matches!(c.observe_outcome(Outcome::TimedOut), Event::Timeout));
    let e = c.observe_outcome(Outcome::Received(Event::Text("hi".to_string())));
    match e {
        Event::Text(words) => assert_eq!(words, "hi"),
        _ => panic!("a received event must be returned as it came"),
    }
    assert!(matches!(
        c.observe_outcome(Outcome::Received(Event::Open(socket.broadcaster()))),
        Event::Open(_)
    ));
    assert!(c.is_open());
    let e2 = c.observe_outcome(Outcome::Disconnected);
    assert!(matches!(e2, Event::Error(WsError::Disconnected)));
    assert!(!c.is_open());
}

#[test]
fn process_propagates_handler_failure_at_once() {
    let socket = mk_socket();
    let mut c = Client::new();
    let job = c.connect("ws://127.0.0.1:1/").unwrap();
    job.forward(Event::Open(socket.broadcaster()));
    job.forward(Event::Text("ping".to_string()));
    job.forward(Event::Text("never delivered".to_string()));
    let mut h = Recorder::new();
    h.fail_on_message = true;
    let r = c.process(&mut h, 50 * MS);
    assert!(matches!(r, Err(WsError::Transport(_))));
    // The failing handler stopped the loop: nothing after the first message.
    assert_eq!(h.log.last().unwrap(), "message:0:ping");
}

#[test]
fn event_before_open_is_a_violation() {
    let mut c = Client::new();
    let job = c.connect("ws://127.0.0.1:1/").unwrap();
    job.forward(Event::Text("too early".to_string()));
    let mut h = Recorder::new();
    let r = c.process(&mut h, 50 * MS);
    assert!(matches!(r, Err(WsError::NotConnected)));
    assert!(h.log.is_empty());
}

#[test]
fn dispatch_close_without_session_fails() {
    let mut c = Client::new();
    let mut h = Recorder::new();
    let r = c.dispatch_event(&mut h, Event::Close);
    assert!(matches!(r, Err(WsError::NotConnected)));
}

#[test]
fn grace_reconnects_when_no_stop_arrived() {
    let mut c = Client::new();
    let job = c.connect("ws://127.0.0.1:1/").unwrap();
    let step = job.grace(20 * MS);
    assert!(matches!(step, LoopStep::Reconnect));
}

#[test]
fn no_reconnect_after_shutdown() {
    let mut c = Client::new();
    let job = c.connect("ws://127.0.0.1:1/").unwrap();
    c.shutdown();
    let step = job.grace(1000 * MS);
    assert!(matches!(step, LoopStep::Exit));
}

#[test]
fn shutdown_twice_is_harmless() {
    let socket = mk_socket();
    let mut c = Client::new();
    let job = c.connect("ws://127.0.0.1:1/").unwrap();
    job.forward(Event::Open(socket.broadcaster()));
    let _ = c.recv(500 * MS);
    c.shutdown();
    c.shutdown();
    c.close();
    c.close();
}
