use frp::addr::{IpAddr, SocketAddr};
use frp::message::Message;
use frp::server::{
    admit_master, duplicate_master_reply, master_slot_taken, master_slot_taken_on, next_pairing,
    no_master_reply, refused_master_reply, route_visitor, route_visitor_on, worker_candidates, MasterLink,
    MasterOutbound, MasterPhase, Pairing, VisitorRoute, FIRST_WORKER_PORT, WORKER_PORT_END,
};
use frp::time::Duration;

#[test]
fn master_slot_by_receiver_count() {
    assert!(!master_slot_taken(1));
    assert!(!master_slot_taken(2));
    assert!(master_slot_taken(3));
}

#[test]
fn admission_checks_secret() {
    let secret = "s3cret".to_string();
    assert!(admit_master(Some(&Message::Master("s3cret".to_string())), &secret));
    assert!(!admit_master(Some(&Message::Master("wrong".to_string())), &secret));
    assert!(!admit_master(Some(&Message::Msg("s3cret".to_string())), &secret));
    assert!(!admit_master(Some(&Message::Ping), &secret));
    assert!(!admit_master(None, &secret));
}

#[test]
fn master_replies() {
    match duplicate_master_reply() {
        Message::Error(t) => assert_eq!(t, "Master already exists"),
        other => panic!("unexpected {other:?}"),
    }
    match refused_master_reply() {
        Message::Error(t) => assert_eq!(t, "Master Secret Error"),
        other => panic!("unexpected {other:?}"),
    }
}

#[test]
fn visitor_routes() {
    assert_eq!(route_visitor(1), Some(VisitorRoute::NoMaster));
    assert_eq!(route_visitor(2), Some(VisitorRoute::ToMaster));
    assert_eq!(route_visitor(3), None);
    assert_eq!(route_visitor(0), None);
}

#[test]
fn routes_follow_live_receivers() {
    let (_tx, rx) = async_channel::unbounded::<Message>();
    assert_eq!(route_visitor_on(&rx), (1, Some(VisitorRoute::NoMaster)));
    assert_eq!(master_slot_taken_on(&rx), (1, false));
    let writer = rx.clone();
    assert_eq!(route_visitor_on(&rx), (2, Some(VisitorRoute::ToMaster)));
    assert_eq!(master_slot_taken_on(&rx), (2, false));
    let second = rx.clone();
    assert_eq!(route_visitor_on(&rx), (3, None));
    assert_eq!(master_slot_taken_on(&rx), (3, true));
    drop(second);
    drop(writer);
    assert_eq!(route_visitor_on(&rx), (1, Some(VisitorRoute::NoMaster)));
}

#[test]
fn master_link_refuses_second_master() {
    let (link, reply) = MasterLink::open(true);
    assert_eq!(link.phase(), MasterPhase::Closed);
    match reply {
        Some(Message::Error(t)) => assert_eq!(t, "Master already exists"),
        other => panic!("unexpected {other:?}"),
    }
}

#[test]
fn master_link_refuses_wrong_secret() {
    let (mut link, reply) = MasterLink::open(false);
    assert!(reply.is_none());
    assert_eq!(link.phase(), MasterPhase::AwaitingHello);
    let reply = link.on_hello(Some(&Message::Master("nope".to_string())), &"s3cret".to_string());
    assert_eq!(link.phase(), MasterPhase::Closed);
    match reply {
        Some(Message::Error(t)) => assert_eq!(t, "Master Secret Error"),
        other => panic!("unexpected {other:?}"),
    }
}

#[test]
fn master_link_announces_worker_first() {
    let server = SocketAddr::new(IpAddr::V4([10, 0, 0, 9]), 7000);
    let (mut link, _) = MasterLink::open(false);
    assert!(link.on_hello(Some(&Message::Master("s3cret".to_string())), &"s3cret".to_string()).is_none());
    assert_eq!(link.phase(), MasterPhase::Announcing);
    match link.announce(&server, 0xAAAB) {
        Message::Worker(a) => assert_eq!(a, SocketAddr::new(IpAddr::V4([10, 0, 0, 9]), 0xAAAB)),
        other => panic!("unexpected {other:?}"),
    }
    assert_eq!(link.phase(), MasterPhase::Serving);
    assert!(matches!(link.outbound(MasterOutbound::HeartbeatDue), Message::Ping));
    assert!(matches!(link.outbound(MasterOutbound::Queued(Message::New)), Message::New));
    assert_eq!(link.phase(), MasterPhase::Serving);
}

#[test]
fn pairing_drops_expired_visitors() {
    let timeout = Duration::from_millis(3000);
    assert_eq!(next_pairing(&Duration::from_millis(3001), &timeout), Pairing::DropVisitor);
    assert_eq!(next_pairing(&Duration::from_millis(3000), &timeout), Pairing::Pair);
    assert_eq!(next_pairing(&Duration::from_millis(10), &timeout), Pairing::Pair);
}

#[test]
fn pairing_takes_first_fresh_visitor() {
    let timeout = Duration::from_millis(1000);
    let waits = [5000u64, 1500, 200, 100];
    let paired = waits
        .iter()
        .position(|w| next_pairing(&Duration::from_millis(*w), &timeout) == Pairing::Pair);
    assert_eq!(paired, Some(2));
}

#[test]
fn no_master_reply_text() {
    assert_eq!(no_master_reply(), b"HTTP/1.1 555 No Master Connect");
}

#[test]
fn worker_candidates_span_the_port_range() {
    let server = SocketAddr::new(IpAddr::V4([192, 168, 1, 2]), 7000);
    let addrs = worker_candidates(&server);
    assert_eq!(addrs.len(), (WORKER_PORT_END - FIRST_WORKER_PORT) as usize);
    assert_eq!(addrs[0], SocketAddr::new(IpAddr::V4([192, 168, 1, 2]), 0xAAAA));
    assert_eq!(addrs[1], SocketAddr::new(IpAddr::V4([192, 168, 1, 2]), 0xAAAB));
    assert_eq!(*addrs.last().unwrap(), SocketAddr::new(IpAddr::V4([192, 168, 1, 2]), 0xFFFE));
    assert!(addrs.windows(2).all(|w| w[0].port() + 1 == w[1].port()));
    assert!(addrs.iter().all(|a| a.ip() == server.ip()));
}

#[test]
fn worker_candidates_for_v6_clear_flow_and_scope() {
    let server = SocketAddr::V6 { segments: [0, 0, 0, 0, 0, 0, 0, 1], port: 1, flowinfo: 7, scope_id: 3 };
    let addrs = worker_candidates(&server);
    assert_eq!(addrs[0], SocketAddr::V6 { segments: [0, 0, 0, 0, 0, 0, 0, 1], port: 0xAAAA, flowinfo: 0, scope_id: 0 });
}
