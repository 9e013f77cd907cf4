use ws_keepalive::protocol::ack_token;
use ws_keepalive::protocol::payload_is_ack;
use ws_keepalive::protocol::probe_token;

#[test]
fn probe_token_is_ping() {
    assert_eq!(probe_token(), "PING");
}

#[test]
fn ack_token_is_pong() {
    assert_eq!(ack_token(), "PONG");
}

#[test]
fn exact_ack_payload_is_recognized() {
    assert!(payload_is_ack(&String::from("PONG")));
}

#[test]
fn other_payloads_are_not_acks() {
    assert!(!payload_is_ack(&String::from("HELLO")));
    assert!(!payload_is_ack(&String::from("pong")));
    assert!(!payload_is_ack(&String::from("PONG ")));
    assert!(!payload_is_ack(&String::from("PING")));
    assert!(!payload_is_ack(&String::from("")));
}
