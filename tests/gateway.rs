use spacebar_gateway::connection::{ConnState, Connection, Frame, Outbound};
use spacebar_gateway::error::GatewayError;
use spacebar_gateway::opcodes::{dispatch, hello_frame, Opcode, Payload};
use spacebar_gateway::registry::{ConnectionInfo, SessionRegistry};
use spacebar_gateway::shard::{parse_shard, parse_u16, ShardInfo};

fn envelope(op: i64) -> Frame {
    Frame::Envelope(Payload { op, d: serde_json::Value::Null })
}

fn close_of(out: Option<Outbound>) -> (u16, String) {
    match out {
        Some(Outbound::Close(f)) => (f.code, f.reason),
        _ => panic!("expected a close frame"),
    }
}

fn text_of(out: Option<Outbound>) -> String {
    match out {
        Some(Outbound::Text(t)) => t,
        _ => panic!("expected a text frame"),
    }
}

#[test]
fn heartbeat_then_unknown_opcode_scenario() {
    let mut reg = SessionRegistry::new();
    let (mut conn, hello) = Connection::open(&mut reg, 7, None);
    assert_eq!(hello, "{\"op\":10,\"d\":{\"heartbeat_interval\":30000}}");
    assert_eq!(reg.len(), 1);
    assert_eq!(text_of(conn.on_frame(envelope(1))), "{\"op\":11}");
    assert!(conn.is_open());
    let (code, reason) = close_of(conn.on_frame(envelope(99)));
    assert_eq!(code, 4001);
    assert_eq!(reason, "unknown opcode 99");
    assert_eq!(conn.state(), ConnState::Closing);
    assert_eq!(conn.close(&mut reg), 0);
    assert_eq!(conn.state(), ConnState::Closed);
}

#[test]
fn every_heartbeat_gets_one_ack_and_stays_open() {
    let mut reg = SessionRegistry::new();
    let (mut conn, _) = Connection::open(&mut reg, 1, None);
    for _ in 0..5 {
        assert_eq!(text_of(conn.on_frame(envelope(1))), "{\"op\":11}");
        assert_eq!(conn.state(), ConnState::Open);
    }
}

#[test]
fn unknown_opcodes_close_and_nothing_follows() {
    for op in [0i64, 3, 4, 5, 7, 10, 11, 255, 256, -1, i64::MAX, i64::MIN] {
        let mut reg = SessionRegistry::new();
        let (mut conn, _) = Connection::open(&mut reg, 1, None);
        let (code, reason) = close_of(conn.on_frame(envelope(op)));
        assert_eq!(code, 4001);
        assert_eq!(reason, format!("unknown opcode {}", op));
        assert!(conn.on_frame(envelope(1)).is_none());
        assert!(conn.on_frame(Frame::Binary).is_none());
        assert_eq!(conn.state(), ConnState::Closing);
    }
}

#[test]
fn identify_and_resume_are_accepted_silently() {
    let mut reg = SessionRegistry::new();
    let (mut conn, _) = Connection::open(&mut reg, 1, None);
    assert!(conn.on_frame(envelope(2)).is_none());
    assert!(conn.on_frame(envelope(6)).is_none());
    assert!(conn.is_open());
}

#[test]
fn malformed_text_closes_with_decode_error() {
    let mut reg = SessionRegistry::new();
    let (mut conn, _) = Connection::open(&mut reg, 1, None);
    assert_eq!(close_of(conn.on_frame(Frame::Malformed)), (4002, "decode error".to_string()));
    assert_eq!(conn.state(), ConnState::Closing);
}

#[test]
fn binary_frame_closes_with_decode_error() {
    let mut reg = SessionRegistry::new();
    let (mut conn, _) = Connection::open(&mut reg, 1, None);
    assert_eq!(close_of(conn.on_frame(Frame::Binary)), (4002, "decode error".to_string()));
}

#[test]
fn peer_close_and_end_close_without_error() {
    let mut reg = SessionRegistry::new();
    let (mut a, _) = Connection::open(&mut reg, 1, None);
    let (mut b, _) = Connection::open(&mut reg, 2, None);
    assert!(a.on_frame(Frame::Close).is_none());
    assert!(b.on_frame(Frame::Ended).is_none());
    assert_eq!(a.state(), ConnState::Closing);
    assert_eq!(b.state(), ConnState::Closing);
}

#[test]
fn other_frames_are_ignored() {
    let mut reg = SessionRegistry::new();
    let (mut conn, _) = Connection::open(&mut reg, 1, None);
    assert!(conn.on_frame(Frame::Other).is_none());
    assert!(conn.is_open());
}

#[test]
fn close_removes_the_entry_exactly_once() {
    let mut reg = SessionRegistry::new();
    let (mut a, _) = Connection::open(&mut reg, 1, None);
    let (_b, _) = Connection::open(&mut reg, 2, None);
    assert_eq!(a.close(&mut reg), 1);
    assert!(!reg.contains(1));
    assert!(reg.contains(2));
    assert_eq!(a.close(&mut reg), 1);
}

#[test]
fn open_registers_session_and_shard() {
    let mut reg = SessionRegistry::new();
    let (conn, _) = Connection::open(&mut reg, 42, Some("3,10"));
    assert_eq!(conn.endpoint(), 42);
    assert_eq!(conn.info().session_id.len(), 36);
    assert_eq!(conn.info().shard, Some(ShardInfo { id: 3, count: 10 }));
    let stored = reg.get(42).unwrap();
    assert_eq!(stored.session_id, conn.info().session_id);
    let (other, _) = Connection::open(&mut reg, 43, Some("3"));
    assert_eq!(other.info().shard, None);
    assert_ne!(other.info().session_id, conn.info().session_id);
}

#[test]
fn live_count_is_connects_minus_disconnects() {
    let mut reg = SessionRegistry::new();
    let n: u64 = 200;
    let mut conns = Vec::new();
    for k in 0..n {
        let (c, _) = Connection::open(&mut reg, k, None);
        conns.push(c);
    }
    assert_eq!(reg.len(), 200);
    let mut removed = 0;
    for (i, c) in conns.iter_mut().enumerate() {
        if i % 3 == 0 {
            c.close(&mut reg);
            removed += 1;
        }
    }
    assert_eq!(reg.len(), 200 - removed);
    assert_eq!(removed, 67);
}

#[test]
fn registry_insert_and_remove() {
    let mut reg = SessionRegistry::new();
    reg.insert(5, ConnectionInfo { session_id: "s".to_string(), shard: None });
    assert!(reg.contains(5));
    assert!(reg.remove(5));
    assert!(!reg.remove(5));
    assert_eq!(reg.len(), 0);
}

#[test]
fn shard_descriptors() {
    assert_eq!(parse_shard("0,1"), Some(ShardInfo { id: 0, count: 1 }));
    assert_eq!(parse_shard("65535,65535"), Some(ShardInfo { id: 65535, count: 65535 }));
    assert_eq!(parse_shard("+2,+4"), Some(ShardInfo { id: 2, count: 4 }));
    assert_eq!(parse_shard("65536,1"), None);
    assert_eq!(parse_shard("1,2,3"), None);
    assert_eq!(parse_shard("1"), None);
    assert_eq!(parse_shard(","), None);
    assert_eq!(parse_shard("1,"), None);
    assert_eq!(parse_shard("a,1"), None);
    assert_eq!(parse_shard(" 1,2"), None);
    assert_eq!(parse_shard("-1,2"), None);
    assert_eq!(parse_shard(""), None);
}

#[test]
fn u16_reading_matches_std() {
    for s in ["0", "7", "65535", "65536", "+12", "+", "", "1a", "00012", "99999999999"] {
        assert_eq!(parse_u16(s), s.parse::<u16>().ok(), "{}", s);
    }
}

#[test]
fn dispatcher_outcomes() {
    assert_eq!(Opcode::decode(1), Opcode::Heartbeat);
    assert_eq!(Opcode::decode(2), Opcode::Identify);
    assert_eq!(Opcode::decode(6), Opcode::Resume);
    assert_eq!(Opcode::decode(9), Opcode::Unknown(9));
    let p = Payload { op: 1, d: serde_json::Value::Null };
    assert_eq!(dispatch(&p), Ok(Some("{\"op\":11}".to_string())));
    let p = Payload { op: 2, d: serde_json::Value::Bool(true) };
    assert_eq!(dispatch(&p), Ok(None));
    let p = Payload { op: 6, d: serde_json::Value::Null };
    assert_eq!(dispatch(&p), Ok(None));
    let p = Payload { op: 200, d: serde_json::Value::Null };
    assert_eq!(dispatch(&p), Err(GatewayError::UnknownOpcode(200)));
    let p = Payload { op: 1000, d: serde_json::Value::Null };
    assert_eq!(dispatch(&p), Err(GatewayError::UnknownOpcode(1000)));
}

#[test]
fn close_codes_and_reasons() {
    let f = GatewayError::DecodeError.close_frame();
    assert_eq!((f.code, f.reason.as_str()), (4002, "decode error"));
    let f = GatewayError::InvalidApiVersion.close_frame();
    assert_eq!((f.code, f.reason.as_str()), (4012, "invalid api version"));
    let f = GatewayError::UnknownOpcode(0).close_frame();
    assert_eq!((f.code, f.reason.as_str()), (4001, "unknown opcode 0"));
    assert_eq!(GatewayError::UnknownOpcode(255).reason(), "unknown opcode 255");
    assert_eq!(GatewayError::UnknownOpcode(-1).reason(), "unknown opcode -1");
    assert_eq!(GatewayError::UnknownOpcode(i64::MIN).reason(), format!("unknown opcode {}", i64::MIN));
    assert_eq!(GatewayError::UnknownOpcode(99999).reason(), "unknown opcode 99999");
}

#[test]
fn hello_frame_text() {
    assert_eq!(hello_frame(30000), "{\"op\":10,\"d\":{\"heartbeat_interval\":30000}}");
    assert_eq!(hello_frame(0), "{\"op\":10,\"d\":{\"heartbeat_interval\":0}}");
    let v: serde_json::Value = serde_json::from_str(&hello_frame(45000)).unwrap();
    assert_eq!(v["op"], 10);
    assert_eq!(v["d"]["heartbeat_interval"], 45000);
}

#[test]
fn live_count_converges_under_concurrent_connects_and_disconnects() {
    let rt = tokio::runtime::Builder::new_multi_thread().worker_threads(4).build().unwrap();
    let reg = std::sync::Arc::new(tokio::sync::Mutex::new(SessionRegistry::new()));
    let n: u64 = 500;
    let mut tasks = Vec::new();
    for k in 0..n {
        let reg = reg.clone();
        tasks.push(rt.spawn(async move {
            let (mut conn, _) = {
                let mut r = reg.lock().await;
                Connection::open(&mut r, k, None)
            };
            tokio::task::yield_now().await;
            if k % 5 != 0 {
                let mut r = reg.lock().await;
                conn.close(&mut r);
            }
        }));
    }
    rt.block_on(async {
        for t in tasks {
            t.await.unwrap();
        }
    });
    assert_eq!(rt.block_on(async { reg.lock().await.len() }), 100);
}
