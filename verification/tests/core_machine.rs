use ironcloak::relay::Relay;
use ironcloak::socks::bind_addr;
use ironcloak::socks::success_reply;
use ironcloak::socks::validate_target;
use ironcloak::socks::Action;
use ironcloak::socks::ConnCounter;
use ironcloak::socks::ConnError;
use ironcloak::socks::Connection;
use ironcloak::socks::Destination;
use ironcloak::socks::Event;
use ironcloak::socks::Phase;
use ironcloak::socks::CONNECT_TIMEOUT_SECS;

fn domain(host: &str, port: u16) -> Destination {
    Destination::Domain { host: host.to_string(), port }
}

fn ip(host: &str, port: u16) -> Destination {
    Destination::Ip { host: host.to_string(), port }
}

#[test]
fn counter_ids_strictly_increasing() {
    let mut counter = ConnCounter::new();
    let a = counter.next_id();
    let b = counter.next_id();
    let c = counter.next_id();
    assert_eq!(a, 0);
    assert_eq!(b, 1);
    assert_eq!(c, 2);
    assert!(a < b && b < c);
    assert!(a != b && b != c && a != c);
}

#[test]
fn ip_literal_rejected_when_policy_on() {
    let r = validate_target(&ip("93.184.216.34", 80), true);
    assert!(matches!(r, Err(ConnError::Policy)));
}

#[test]
fn ip_literal_allowed_when_policy_off() {
    let r = validate_target(&ip("93.184.216.34", 80), false);
    assert!(r.is_ok());
}

#[test]
fn domain_always_allowed() {
    assert!(validate_target(&domain("example.com", 443), true).is_ok());
    assert!(validate_target(&domain("example.com", 443), false).is_ok());
}

#[test]
fn connect_timeout_closes_without_reply() {
    assert_eq!(CONNECT_TIMEOUT_SECS, 60);
    let conn = Connection::new(7, true);
    let (conn, a1) = conn.step(Event::HandshakeDone { target: Some(domain("example.com", 443)) });
    assert!(matches!(a1, Action::Proceed));
    let (conn, a2) = conn.step(Event::EvaluateTarget);
    assert!(matches!(a2, Action::Connect { .. }));
    let (conn, a3) = conn.step(Event::ConnectTimedOut);
    assert!(matches!(a3, Action::Drop));
    assert!(matches!(conn.phase, Phase::Failed { err: ConnError::ConnectTimeout }));
    // No step of this run asked for the success reply.
    assert!(!matches!(a1, Action::SendReply));
    assert!(!matches!(a2, Action::SendReply));
    assert!(!matches!(a3, Action::SendReply));
}

#[test]
fn success_reply_is_the_fixed_ten_bytes() {
    let reply = success_reply();
    assert_eq!(reply, vec![0x05, 0x00, 0x00, 0x01, 0x00, 0x00, 0x00, 0x00, 0x00, 0x00]);
}

#[test]
fn reply_comes_before_relay_on_the_happy_path() {
    let conn = Connection::new(1, true);
    let (conn, a1) = conn.step(Event::HandshakeDone { target: Some(domain("example.org", 80)) });
    let (conn, a2) = conn.step(Event::EvaluateTarget);
    let (conn, a3) = conn.step(Event::ConnectSucceeded);
    let (conn, a4) = conn.step(Event::ReplySent);
    let (conn, a5) = conn.step(Event::RelayFinished { up: 42, down: 99 });
    assert!(matches!(a1, Action::Proceed));
    match a2 {
        Action::Connect { host, port } => {
            assert_eq!(host, "example.org");
            assert_eq!(port, 80);
        }
        _ => panic!("expected a connect action"),
    }
    assert!(matches!(a3, Action::SendReply));
    assert!(matches!(a4, Action::StartRelay));
    assert!(matches!(a5, Action::Finish));
    assert!(matches!(conn.phase, Phase::Closed { clean: true, up: 42, down: 99 }));
}

#[test]
fn relay_delivers_both_directions_across_interleavings() {
    let client_in: Vec<u8> = b"GET / HTTP/1.1\r\n\r\n".to_vec();
    let server_in: Vec<u8> = b"HTTP/1.1 200 OK\r\ncontent-length: 2\r\n\r\nhi".to_vec();
    let n = client_in.len();
    let m = server_in.len();
    let mut relay = Relay::new(client_in.clone(), server_in.clone());
    // Interleave the two directions unevenly, as a scheduler would.
    let mut turn = 0u32;
    loop {
        let moved = match turn % 3 {
            0 => relay.step_up(),
            _ => relay.step_down(),
        };
        turn += 1;
        if !moved {
            let up_more = relay.step_up();
            let down_more = relay.step_down();
            if !up_more && !down_more {
                break;
            }
        }
    }
    let (up_done, down_done) = relay.progress();
    assert_eq!(up_done, n);
    assert_eq!(down_done, m);
    assert_eq!(relay.up_out, client_in);
    assert_eq!(relay.down_out, server_in);
}

#[test]
fn one_connection_failure_leaves_another_untouched() {
    let mut counter = ConnCounter::new();
    let failing = Connection::new(counter.next_id(), true);
    let healthy = Connection::new(counter.next_id(), true);
    assert_ne!(failing.id, healthy.id);

    // The first connection dies in its handshake.
    let (failing, a) = failing.step(Event::HandshakeFailed);
    assert!(matches!(a, Action::Drop));
    assert!(matches!(failing.phase, Phase::Failed { err: ConnError::Handshake }));

    // The other connection relays to completion regardless.
    let (healthy, _) = healthy.step(Event::HandshakeDone {
        target: Some(domain("example.net", 443)),
    });
    let (healthy, _) = healthy.step(Event::EvaluateTarget);
    let (healthy, _) = healthy.step(Event::ConnectSucceeded);
    let (healthy, _) = healthy.step(Event::ReplySent);
    let (healthy, _) = healthy.step(Event::RelayFinished { up: 10, down: 20 });
    assert!(matches!(healthy.phase, Phase::Closed { clean: true, up: 10, down: 20 }));
}

#[test]
fn scenario_domain_connect_fails() {
    let conn = Connection::new(3, true);
    let (conn, _) = conn.step(Event::HandshakeDone {
        target: Some(domain("example.invalid", 443)),
    });
    let (conn, a2) = conn.step(Event::EvaluateTarget);
    match a2 {
        Action::Connect { host, port } => {
            assert_eq!(host, "example.invalid");
            assert_eq!(port, 443);
        }
        _ => panic!("expected a connect action"),
    }
    let (conn, a3) = conn.step(Event::ConnectFailed);
    // The socket closes with nothing written: drop, no reply.
    assert!(matches!(a3, Action::Drop));
    assert!(matches!(conn.phase, Phase::Failed { err: ConnError::Connect }));
    // The failure is recorded against the right connection.
    assert_eq!(conn.id, 3);
}

#[test]
fn scenario_ip_literal_rejected() {
    let conn = Connection::new(4, true);
    let (conn, a1) = conn.step(Event::HandshakeDone {
        target: Some(ip("93.184.216.34", 80)),
    });
    assert!(matches!(a1, Action::Proceed));
    let (conn, a2) = conn.step(Event::EvaluateTarget);
    // Dropped immediately: no outbound attempt.
    assert!(matches!(a2, Action::Drop));
    assert!(!matches!(a2, Action::Connect { .. }));
    assert!(matches!(conn.phase, Phase::Rejected));
    assert_eq!(conn.id, 4);
}

#[test]
fn ip_literal_proceeds_when_policy_off() {
    let conn = Connection::new(5, false);
    let (conn, _) = conn.step(Event::HandshakeDone { target: Some(ip("10.0.0.1", 8080)) });
    let (conn, a) = conn.step(Event::EvaluateTarget);
    match a {
        Action::Connect { host, port } => {
            assert_eq!(host, "10.0.0.1");
            assert_eq!(port, 8080);
        }
        _ => panic!("expected a connect action"),
    }
    assert!(matches!(conn.phase, Phase::Connecting));
}

#[test]
fn handshake_without_target_fails() {
    let conn = Connection::new(0, true);
    let (conn, a) = conn.step(Event::HandshakeDone { target: None });
    assert!(matches!(a, Action::Drop));
    assert!(matches!(conn.phase, Phase::Failed { err: ConnError::NoTarget }));
}

#[test]
fn reply_write_failure_is_terminal() {
    let conn = Connection::new(0, false);
    let (conn, _) = conn.step(Event::HandshakeDone { target: Some(domain("a.example", 1)) });
    let (conn, _) = conn.step(Event::EvaluateTarget);
    let (conn, _) = conn.step(Event::ConnectSucceeded);
    let (conn, a) = conn.step(Event::ReplyFailed);
    assert!(matches!(a, Action::Drop));
    assert!(matches!(conn.phase, Phase::Failed { err: ConnError::Reply }));
}

#[test]
fn broken_relay_still_closes() {
    let conn = Connection::new(0, false);
    let (conn, _) = conn.step(Event::HandshakeDone { target: Some(domain("a.example", 1)) });
    let (conn, _) = conn.step(Event::EvaluateTarget);
    let (conn, _) = conn.step(Event::ConnectSucceeded);
    let (conn, _) = conn.step(Event::ReplySent);
    let (conn, a) = conn.step(Event::RelayBroken);
    assert!(matches!(a, Action::Finish));
    assert!(matches!(conn.phase, Phase::Closed { clean: false, .. }));
}

#[test]
fn bind_addr_renders_address_and_port() {
    assert_eq!(bind_addr("127.0.0.1", 9150), "127.0.0.1:9150");
    assert_eq!(bind_addr("0.0.0.0", 0), "0.0.0.0:0");
    assert_eq!(bind_addr("::1", 65535), "::1:65535");
}

#[test]
fn empty_relay_finishes_at_once() {
    let mut relay = Relay::new(Vec::new(), Vec::new());
    assert!(!relay.step_up());
    assert!(!relay.step_down());
    let (up, down) = relay.progress();
    assert_eq!((up, down), (0, 0));
    assert!(relay.up_out.is_empty());
    assert!(relay.down_out.is_empty());
}
