use frp::addr::{placeholder_worker, IpAddr, SocketAddr};
use frp::message::{client_heartbeat, frame_line, keeps_reading, on_line, LineStep, Message};
use frp::session::{bridge_plan, client_unreachable_reply, BridgePlan, Session, SessionAction};

fn v4(a: u8, b: u8, c: u8, d: u8, port: u16) -> SocketAddr {
    SocketAddr::new(IpAddr::V4([a, b, c, d]), port)
}

#[test]
fn frame_appends_newline() {
    let line = frame_line(b"{\"type\":\"Ping\"}".to_vec());
    assert_eq!(line, b"{\"type\":\"Ping\"}\n".to_vec());
    assert_eq!(frame_line(Vec::new()), vec![b'\n']);
}

#[test]
fn reader_stops_on_short_reads() {
    assert!(!keeps_reading(0));
    assert!(!keeps_reading(1));
    assert!(keeps_reading(2));
    assert!(keeps_reading(256));
}

#[test]
fn client_heartbeat_is_pong() {
    assert!(matches!(client_heartbeat(), Message::Pong));
}

#[test]
fn line_steps() {
    assert!(matches!(on_line(None, Some(Message::Ping)), LineStep::Stop));
    assert!(matches!(on_line(Some(0), None), LineStep::Stop));
    assert!(matches!(on_line(Some(1), Some(Message::Ping)), LineStep::Stop));
    assert!(matches!(on_line(Some(12), None), LineStep::Skip));
    match on_line(Some(16), Some(Message::Msg("hi".to_string()))) {
        LineStep::Deliver(Message::Msg(s)) => assert_eq!(s, "hi"),
        other => panic!("unexpected {other:?}"),
    }
}

#[test]
fn socket_addr_parts() {
    let a = v4(10, 0, 0, 1, 7000);
    assert_eq!(a.ip(), IpAddr::V4([10, 0, 0, 1]));
    assert_eq!(a.port(), 7000);
    let b = SocketAddr::new(IpAddr::V6([0, 0, 0, 0, 0, 0, 0, 1]), 80);
    assert_eq!(b, SocketAddr::V6 { segments: [0, 0, 0, 0, 0, 0, 0, 1], port: 80, flowinfo: 0, scope_id: 0 });
}

#[test]
fn session_starts_at_placeholder() {
    let s = Session::new();
    assert_eq!(s.worker(), placeholder_worker());
    assert_eq!(placeholder_worker(), v4(0, 0, 0, 0, 65535));
}

#[test]
fn session_follows_last_worker() {
    let mut s = Session::new();
    match s.on_message(Message::New) {
        SessionAction::OpenWorker(a) => assert_eq!(a, v4(0, 0, 0, 0, 65535)),
        other => panic!("unexpected {other:?}"),
    }
    match s.on_message(Message::Worker(v4(1, 2, 3, 4, 43690))) {
        SessionAction::WorkerMoved(a) => assert_eq!(a, v4(1, 2, 3, 4, 43690)),
        other => panic!("unexpected {other:?}"),
    }
    assert!(matches!(s.on_message(Message::Ping), SessionAction::Ignore));
    assert!(matches!(s.on_message(Message::Pong), SessionAction::Ignore));
    assert!(matches!(s.on_message(Message::Master("x".to_string())), SessionAction::Ignore));
    match s.on_message(Message::New) {
        SessionAction::OpenWorker(a) => assert_eq!(a, v4(1, 2, 3, 4, 43690)),
        other => panic!("unexpected {other:?}"),
    }
    s.on_message(Message::Worker(v4(1, 2, 3, 4, 43691)));
    assert_eq!(s.worker(), v4(1, 2, 3, 4, 43691));
}

#[test]
fn session_prints_and_stops() {
    let mut s = Session::new();
    match s.on_message(Message::Msg("hello".to_string())) {
        SessionAction::Print(t) => assert_eq!(t, "hello"),
        other => panic!("unexpected {other:?}"),
    }
    match s.on_message(Message::Error("Master Secret Error".to_string())) {
        SessionAction::Stop(t) => assert_eq!(t, "Master Secret Error"),
        other => panic!("unexpected {other:?}"),
    }
    assert_eq!(s.worker(), placeholder_worker());
}

#[test]
fn bridge_plans() {
    assert_eq!(bridge_plan(false, false), BridgePlan::Abandon);
    assert_eq!(bridge_plan(false, true), BridgePlan::Abandon);
    assert_eq!(bridge_plan(true, true), BridgePlan::Relay);
    assert_eq!(bridge_plan(true, false), BridgePlan::TurnAway);
}

#[test]
fn client_unreachable_reply_text() {
    assert_eq!(client_unreachable_reply(), b"HTTP/1.1 555 Client Connect Failed");
}

#[test]
fn frame_is_a_single_line() {
    let line = frame_line(b"{\"type\":\"Msg\",\"value\":\"a\\nb\"}".to_vec());
    assert_eq!(line.iter().filter(|b| **b == b'\n').count(), 1);
    assert_eq!(*line.last().unwrap(), b'\n');
    assert!(keeps_reading(line.len()));
}
