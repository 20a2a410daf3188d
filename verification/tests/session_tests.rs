use netowiru::frame::encode_frame;
use netowiru::namemap::NameMap;
use netowiru::session::initiator_session;
use netowiru::session::relay_session;
use netowiru::session::responder_session;

fn sample_services() -> NameMap<String> {
    let mut services: NameMap<String> = NameMap::new();
    services.insert("echo".to_string(), "127.0.0.1:8001".to_string());
    services.insert("db".to_string(), "127.0.0.1:5432".to_string());
    services
}

#[test]
fn round_trip_routing_through_an_echoing_backend() {
    let services = sample_services();
    let payload = b"arbitrary payload bytes \x00\x01\x02";

    // The initiator declares the service, then sends its payload.
    let mut to_proxy = encode_frame(b"echo");
    to_proxy.extend_from_slice(payload);

    // The responder routes it and forwards exactly the payload to the backend.
    let outcome = responder_session(&services, &to_proxy).expect("known service");
    assert_eq!(outcome.backend_address, "127.0.0.1:8001");
    assert_eq!(outcome.forwarded, payload.to_vec());

    // The backend echoes the payload; the relay returns ack, then echo.
    let mut from_proxy = outcome.ack.clone();
    from_proxy.extend_from_slice(&outcome.forwarded);

    // The initiator validates the ack and receives exactly what it sent.
    let received = initiator_session(b"echo", &from_proxy).expect("matching ack");
    assert_eq!(received, payload.to_vec());
}

#[test]
fn unknown_service_forwards_nothing_and_dials_nothing() {
    let services = sample_services();
    let mut to_proxy = encode_frame(b"ftp");
    to_proxy.extend_from_slice(b"payload that must never reach a backend");
    assert!(responder_session(&services, &to_proxy).is_none());
}

#[test]
fn nothing_is_forwarded_before_the_request_frame_completes() {
    let services = sample_services();
    let request = encode_frame(b"echo");
    for k in 0..request.len() {
        assert!(responder_session(&services, &request[..k]).is_none());
    }
}

#[test]
fn payload_injected_before_the_ack_is_still_framed_correctly() {
    let services = sample_services();
    // The peer does not wait for the acknowledgment: payload bytes follow the
    // request immediately. The responder must consume exactly the frame as
    // handshake and forward exactly the rest.
    let mut to_proxy = encode_frame(b"echo");
    to_proxy.extend_from_slice(b"impatient payload");
    let outcome = responder_session(&services, &to_proxy).expect("known service");
    assert_eq!(outcome.ack, encode_frame(b"echo"));
    assert_eq!(outcome.forwarded, b"impatient payload".to_vec());
}

#[test]
fn concurrent_sessions_stay_isolated() {
    let services = sample_services();

    let mut session_a = encode_frame(b"echo");
    session_a.extend_from_slice(b"payload of session A");
    let mut session_b = encode_frame(b"db");
    session_b.extend_from_slice(b"payload of session B");

    let outcome_a = responder_session(&services, &session_a).expect("known service");
    let outcome_b = responder_session(&services, &session_b).expect("known service");

    // Each session resolves its own backend and forwards only its own bytes.
    assert_eq!(outcome_a.backend_address, "127.0.0.1:8001");
    assert_eq!(outcome_b.backend_address, "127.0.0.1:5432");
    assert_eq!(outcome_a.forwarded, b"payload of session A".to_vec());
    assert_eq!(outcome_b.forwarded, b"payload of session B".to_vec());

    // Replaying session A with session B absent changes nothing about A.
    let outcome_a_alone = responder_session(&services, &session_a).expect("known service");
    assert_eq!(outcome_a_alone.backend_address, outcome_a.backend_address);
    assert_eq!(outcome_a_alone.forwarded, outcome_a.forwarded);
}

#[test]
fn initiator_rejects_a_mismatched_ack() {
    let ack_for_other = encode_frame(b"db");
    assert!(initiator_session(b"echo", &ack_for_other).is_none());
    let truncated = &encode_frame(b"echo")[..10];
    assert!(initiator_session(b"echo", truncated).is_none());
}

#[test]
fn tunnel_is_transparent_to_any_backend_reply() {
    let reply = b"any bytes the backend chooses \xde\xad";
    let mut from_proxy = encode_frame(b"echo");
    from_proxy.extend_from_slice(reply);
    let received = initiator_session(b"echo", &from_proxy).expect("matching ack");
    // What arrives through the proxy hop equals what a direct connection
    // would have delivered.
    assert_eq!(received, reply.to_vec());
}

#[test]
fn relay_reports_the_bytes_delivered_each_way() {
    let report = relay_session(b"seven b", b"three more bytes");
    assert_eq!(report.to_backend, b"seven b".to_vec());
    assert_eq!(report.to_frontend, b"three more bytes".to_vec());
    assert_eq!(report.frontend_to_backend, 7);
    assert_eq!(report.backend_to_frontend, 16);
}
