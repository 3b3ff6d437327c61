use mellow::client::DiscordWsClient;
use mellow::connection::{Action, Connection, Phase};
use mellow::error::{ConnectionError, GatewayError};
use mellow::frame::{decimal_string, decode_payload, heartbeat_frame, identify_frame};
use mellow::opcode::GatewayOp;

const IDENTIFY_T_513: &str = "{\"op\":2,\"d\":{\"token\":\"T\",\"intents\":513,\"properties\":{\"os\":\"linux\",\"browser\":\"mellow\",\"device\":\"mellow\"}}}";

fn connected(token: &str, intents: u64) -> Connection {
    let mut c = Connection::new(token.to_string(), intents);
    c.transport_opened();
    c
}

#[test]
fn opcode_round_trip() {
    for c in [0i64, 1, 2, 10] {
        let op = GatewayOp::from_code(c).unwrap();
        assert_eq!(op.code(), c);
    }
    assert_eq!(GatewayOp::from_code(0), Some(GatewayOp::Dispatch));
    assert_eq!(GatewayOp::from_code(1), Some(GatewayOp::Heartbeat));
    assert_eq!(GatewayOp::from_code(2), Some(GatewayOp::Identify));
    assert_eq!(GatewayOp::from_code(10), Some(GatewayOp::Hello));
}

#[test]
fn unknown_codes_have_no_op() {
    for c in [-1i64, 3, 9, 11, 99, i64::MAX, i64::MIN] {
        assert_eq!(GatewayOp::from_code(c), None);
    }
}

#[test]
fn gateway_error_messages() {
    assert_eq!(GatewayError::InvalidOpCode.message(), "Invalid OP code");
    assert_eq!(GatewayError::UnknownEvent("GUILD_CREATE".to_string()).message(), "Unknown event: GUILD_CREATE");
    assert_eq!(GatewayError::InvalidSession.message(), "Invalid session");
}

#[test]
fn decimal_notation() {
    assert_eq!(decimal_string(0), "0");
    assert_eq!(decimal_string(7), "7");
    assert_eq!(decimal_string(513), "513");
    assert_eq!(decimal_string(1000), "1000");
    assert_eq!(decimal_string(u64::MAX), "18446744073709551615");
}

#[test]
fn heartbeat_frame_text() {
    assert_eq!(heartbeat_frame(), "{\"op\":1,\"d\":\"null\"}");
}

#[test]
fn identify_frame_text() {
    assert_eq!(identify_frame("T", 513), IDENTIFY_T_513);
}

#[test]
fn identify_frame_escapes_token() {
    let f = identify_frame("a\"b", 0);
    assert!(f.contains("\"token\":\"a\\\"b\""));
    assert!(f.contains("\"intents\":0,"));
    let g = identify_frame("a\u{1}\n\\\u{1f}x", 7);
    assert!(g.contains("\"token\":\"a\\u0001\\n\\\\\\u001fx\""));
}

#[test]
fn hello_identifies_then_starts_heartbeat() {
    let mut c = connected("T", 513);
    let acts = c.handle(10, Some(1000)).unwrap();
    assert_eq!(
        acts,
        vec![Action::Send(IDENTIFY_T_513.to_string()), Action::StartHeartbeat { interval_ms: 1000 }]
    );
    assert_eq!(c.phase(), Phase::Authenticating);
}

#[test]
fn end_to_end_hello_frame() {
    let client = DiscordWsClient::new("T".to_string(), 513);
    let mut c = client.new_connection();
    assert_eq!(c.phase(), Phase::Connecting);
    c.transport_opened();
    let acts = c.handle_frame("{\"op\":10,\"d\":{\"heartbeat_interval\":1000}}").unwrap();
    assert_eq!(
        acts,
        vec![Action::Send(IDENTIFY_T_513.to_string()), Action::StartHeartbeat { interval_ms: 1000 }]
    );
    assert_eq!(heartbeat_frame(), "{\"op\":1,\"d\":\"null\"}");
}

#[test]
fn identify_sent_once() {
    let mut c = connected("T", 513);
    let first = c.handle(10, Some(1000)).unwrap();
    assert_eq!(first.len(), 2);
    let second = c.handle(10, Some(1000)).unwrap();
    assert!(second.is_empty());
    assert_eq!(c.handle(0, None).unwrap(), vec![Action::DispatchEvent]);
    assert!(c.handle(10, Some(500)).unwrap().is_empty());
    assert_eq!(c.phase(), Phase::Active);
}

#[test]
fn unknown_opcode_frame_fails() {
    let mut c = connected("T", 513);
    let r = c.handle_frame("{\"op\":99,\"d\":null}");
    assert_eq!(r, Err(ConnectionError::Gateway(GatewayError::InvalidOpCode)));
    assert_eq!(c.phase(), Phase::Failed);
    assert!(c.handle_frame("{\"op\":10,\"d\":{\"heartbeat_interval\":1000}}").unwrap().is_empty());
    assert!(c.handle(0, None).unwrap().is_empty());
}

#[test]
fn unknown_opcode_after_identify_fails() {
    let mut c = connected("T", 513);
    c.handle(10, Some(1000)).unwrap();
    assert_eq!(c.handle(99, None), Err(ConnectionError::Gateway(GatewayError::InvalidOpCode)));
    assert_eq!(c.phase(), Phase::Failed);
}

#[test]
fn malformed_frames() {
    let mut c = connected("T", 513);
    assert_eq!(c.handle_frame("not json"), Err(ConnectionError::MalformedFrame));
    assert_eq!(c.phase(), Phase::Failed);
    let mut c = connected("T", 513);
    assert_eq!(c.handle_frame("{\"d\":null}"), Err(ConnectionError::MalformedFrame));
    let mut c = connected("T", 513);
    assert_eq!(c.handle_frame("{\"op\":10,\"d\":{}}"), Err(ConnectionError::MalformedFrame));
    let mut c = connected("T", 513);
    assert_eq!(c.handle(10, Some(-5)), Err(ConnectionError::MalformedFrame));
    assert_eq!(c.phase(), Phase::Failed);
    let mut c = connected("T", 513);
    assert_eq!(c.handle(10, Some(0)), Err(ConnectionError::MalformedFrame));
    let mut c = connected("T", 513);
    assert_eq!(c.handle_frame("{\"op\":10,\"d\":null}"), Err(ConnectionError::MalformedFrame));
    let mut c = connected("T", 513);
    assert_eq!(c.handle_frame("{\"op\":10}"), Err(ConnectionError::MalformedFrame));
    let mut c = connected("T", 513);
    assert_eq!(c.handle_frame("[1,2]"), Err(ConnectionError::MalformedFrame));
}

#[test]
fn dispatch_needs_identify() {
    let mut c = connected("T", 513);
    assert!(c.handle(0, None).unwrap().is_empty());
    assert_eq!(c.phase(), Phase::Connected);
    c.handle(10, Some(41250)).unwrap();
    assert_eq!(c.handle(0, None).unwrap(), vec![Action::DispatchEvent]);
    assert_eq!(c.phase(), Phase::Active);
}

#[test]
fn other_known_ops_change_nothing() {
    let mut c = connected("T", 513);
    assert!(c.handle(1, None).unwrap().is_empty());
    assert!(c.handle(2, None).unwrap().is_empty());
    assert_eq!(c.phase(), Phase::Connected);
}

#[test]
fn closed_connection_is_silent() {
    let mut c = connected("T", 513);
    c.close();
    assert_eq!(c.phase(), Phase::Closed);
    assert!(c.handle(10, Some(1000)).unwrap().is_empty());
    assert!(c.handle(99, None).unwrap().is_empty());
    assert_eq!(c.handle_frame("garbage"), Err(ConnectionError::MalformedFrame));
    assert_eq!(c.phase(), Phase::Closed);
}

#[test]
fn hello_before_transport_opens_is_ignored() {
    let mut c = Connection::new("T".to_string(), 1);
    assert!(c.handle(10, Some(1000)).unwrap().is_empty());
    assert_eq!(c.phase(), Phase::Connecting);
    assert_eq!(c.token(), "T");
    assert_eq!(c.intents(), 1);
}

#[test]
fn decode_reads_op_and_interval() {
    let p = decode_payload("{\"op\":10,\"d\":{\"heartbeat_interval\":41250}}").unwrap();
    assert_eq!(p.op, 10);
    assert_eq!(p.heartbeat_interval, Some(41250));
    let p = decode_payload("{\"op\":1,\"d\":null}").unwrap();
    assert_eq!(p.op, 1);
    assert_eq!(p.heartbeat_interval, None);
    let p = decode_payload("{\"op\":10,\"d\":{\"heartbeat_interval\":\"1000\"}}").unwrap();
    assert_eq!(p.heartbeat_interval, None);
    assert!(decode_payload("{\"op\":\"10\"}").is_err());
    assert!(decode_payload("").is_err());
}
