use ws2::server::{listen_verdict, Event, IdCounter, Server};
use ws2::{Handler, Message, Pod, WebSocket, WsError};

/// A freshly built (never run) socket: its broadcaster handles are enough to
/// exercise every handle-carrying path without any network, as long as the
/// socket stays alive.
fn mk_socket() -> ws::WebSocket<impl ws::Factory> {
    ws::Builder::new()
        .build(|_out: ws::Sender| move |_msg: ws::Message| -> ws::Result<()> { Ok(()) })
        .unwrap()
}

fn mk_server() -> (std::sync::mpsc::Sender<Event>, Server, ws::WebSocket<impl ws::Factory>) {
    let (tx, rx) = std::sync::mpsc::channel();
    let socket = mk_socket();
    let radio = socket.broadcaster();
    (tx, Server::new(rx, radio), socket)
}

struct Echo {
    log: Vec<String>,
}

impl Echo {
    fn new() -> Echo {
        Echo { log: Vec::new() }
    }
}

impl Handler for Echo {
    fn on_open(&mut self, ws: &WebSocket) -> Pod {
        self.log.push(format!("open:{}:{}", ws.id(), ws.address()));
        Ok(())
    }

    fn on_close(&mut self, ws: &WebSocket) -> Pod {
        self.log.push(format!("close:{}", ws.id()));
        Ok(())
    }

    fn on_message(&mut self, ws: &WebSocket, msg: String) -> Pod {
        self.log.push(format!("message:{}:{}", ws.id(), msg));
        let echo = format!("echo: {msg}");
        ws.send(Message::Text(echo))
    }

    fn on_binary(&mut self, ws: &WebSocket, buf: Vec<u8>) -> Pod {
        self.log.push(format!("binary:{}:{}", ws.id(), buf.len()));
        Ok(())
    }

    fn on_error(&mut self, error: WsError) -> Pod {
        self.log.push(format!("error:{error:?}"));
        Ok(())
    }

    fn on_timeout(&mut self) -> Pod {
        self.log.push("timeout".to_string());
        Ok(())
    }
}

const MS: u64 = 1_000_000;

#[test]
fn identifiers_are_distinct_and_increasing() {
    let mut counter = IdCounter::new();
    let mut ids = Vec::new();
    for _ in 0..5 {
        ids.push(counter.fresh());
    }
    assert_eq!(ids, vec![0, 1, 2, 3, 4]);
    for i in 0..ids.len() {
        for j in (i + 1)..ids.len() {
            assert!(ids[i] < ids[j]);
            assert_ne!(ids[i], ids[j]);
        }
    }
}

#[test]
fn echo_scenario_observes_open_then_text() {
    let (tx, mut server, _socket) = mk_server();
    tx.send(Event::Open(1, _socket.broadcaster(), "10.0.0.7:4242".to_string())).unwrap();
    tx.send(Event::Text(1, "ping".to_string())).unwrap();
    let mut h = Echo::new();
    // One call drains the burst, then hands control back on the quiet window.
    assert!(server.process(&mut h, 50 * MS).is_ok());
    assert_eq!(
        h.log,
        vec![
            "open:1:10.0.0.7:4242".to_string(),
            "message:1:ping".to_string(),
            "timeout".to_string(),
        ]
    );
    assert!(server.is_live(1));
    assert_eq!(server.session_count(), 1);
}

#[test]
fn closing_one_connection_leaves_the_other_alive() {
    let (tx, mut server, _socket) = mk_server();
    tx.send(Event::Open(1, _socket.broadcaster(), "10.0.0.1:1111".to_string())).unwrap();
    tx.send(Event::Open(2, _socket.broadcaster(), "10.0.0.2:2222".to_string())).unwrap();
    tx.send(Event::Close(1)).unwrap();
    let mut h = Echo::new();
    assert!(server.process(&mut h, 50 * MS).is_ok());
    assert!(!server.is_live(1));
    assert!(server.is_live(2));
    assert_eq!(server.session_count(), 1);
    // The surviving connection still dispatches normally.
    tx.send(Event::Text(2, "still here".to_string())).unwrap();
    assert!(server.process(&mut h, 50 * MS).is_ok());
    assert_eq!(h.log[h.log.len() - 2], "message:2:still here");
}

#[test]
fn close_retires_the_entry_exactly_once() {
    let (tx, mut server, _socket) = mk_server();
    tx.send(Event::Open(1, _socket.broadcaster(), "10.0.0.1:1111".to_string())).unwrap();
    tx.send(Event::Close(1)).unwrap();
    tx.send(Event::Close(1)).unwrap();
    let mut h = Echo::new();
    // The second close finds no entry: a violation, reported, not a panic,
    // and it stops the drain at once.
    let r = server.process(&mut h, 50 * MS);
    assert!(matches!(r, Err(WsError::NotConnected)));
    assert_eq!(h.log, vec!["open:1:10.0.0.1:1111".to_string(), "close:1".to_string()]);
    assert_eq!(server.session_count(), 0);
}

#[test]
fn event_for_unknown_identifier_fails() {
    let (tx, mut server, _socket) = mk_server();
    tx.send(Event::Text(7, "nobody home".to_string())).unwrap();
    let mut h = Echo::new();
    let r = server.process(&mut h, 50 * MS);
    assert!(matches!(r, Err(WsError::NotConnected)));
    assert!(h.log.is_empty());
}

#[test]
fn server_recv_times_out_within_bounds() {
    let (_tx, server, _socket) = mk_server();
    let before = std::time::Instant::now();
    let e = server.recv(100 * MS);
    let elapsed = before.elapsed();
    assert!(matches!(e, Event::Timeout));
    assert!(elapsed >= std::time::Duration::from_millis(100));
    assert!(elapsed < std::time::Duration::from_secs(5));
}

#[test]
fn recv_reports_disconnection_when_producer_is_gone() {
    let (tx, server, _socket) = mk_server();
    drop(tx);
    let e = server.recv(100 * MS);
    assert!(matches!(e, Event::Error(WsError::Disconnected)));
}

#[test]
fn timeout_invokes_on_timeout_and_returns() {
    let (_tx, mut server, _socket) = mk_server();
    let mut h = Echo::new();
    assert!(server.process(&mut h, 10 * MS).is_ok());
    assert_eq!(h.log, vec!["timeout".to_string()]);
}

#[test]
fn server_shutdown_twice_is_harmless() {
    let (_tx, server, _socket) = mk_server();
    server.shutdown();
    server.shutdown();
}

#[test]
fn listen_verdict_propagates_only_early_failure() {
    assert!(listen_verdict(None).is_ok());
    assert!(listen_verdict(Some(Ok(()))).is_ok());
    let r = listen_verdict(Some(Err("address in use".to_string())));
    match r {
        Err(WsError::Bind(words)) => assert_eq!(words, "address in use"),
        _ => panic!("an early exit with an error must become a bind failure"),
    }
}
