use netowiru::frame::encode_frame;
use netowiru::handshake::ack_matches;
use netowiru::handshake::bytes_eq;
use netowiru::handshake::route_request;
use netowiru::handshake::MAX_SERVICE_NAME_LEN;
use netowiru::namemap::NameMap;

fn sample_services() -> NameMap<String> {
    let mut services: NameMap<String> = NameMap::new();
    services.insert("echo".to_string(), "127.0.0.1:8001".to_string());
    services.insert("db".to_string(), "127.0.0.1:5432".to_string());
    services
}

#[test]
fn known_service_routes_to_its_backend() {
    let services = sample_services();
    let routed = route_request(&services, b"echo").expect("known service");
    assert_eq!(routed.backend_address, "127.0.0.1:8001");
    assert_eq!(routed.ack, encode_frame(b"echo"));
}

#[test]
fn unknown_service_is_refused() {
    let services = sample_services();
    assert!(route_request(&services, b"ftp").is_none());
    assert!(route_request(&services, b"ECHO").is_none());
}

#[test]
fn empty_name_is_refused() {
    let services = sample_services();
    assert!(route_request(&services, b"").is_none());
}

#[test]
fn name_over_the_cap_is_refused() {
    let mut services = sample_services();
    let long_name = "x".repeat(MAX_SERVICE_NAME_LEN as usize + 1);
    services.insert(long_name.clone(), "127.0.0.1:9999".to_string());
    assert!(route_request(&services, long_name.as_bytes()).is_none());
    let at_cap = "y".repeat(MAX_SERVICE_NAME_LEN as usize);
    services.insert(at_cap.clone(), "127.0.0.1:9998".to_string());
    assert!(route_request(&services, at_cap.as_bytes()).is_some());
}

#[test]
fn non_utf8_name_is_refused() {
    let services = sample_services();
    assert!(route_request(&services, &[0xff, 0xfe, b'a']).is_none());
}

#[test]
fn ack_must_equal_sent_name_exactly() {
    assert!(ack_matches(b"echo", b"echo"));
    assert!(!ack_matches(b"echo", b"ech"));
    assert!(!ack_matches(b"echo", b"echoo"));
    assert!(!ack_matches(b"echo", b"Echo"));
    assert!(!ack_matches(b"echo", b""));
}

#[test]
fn byte_comparison() {
    assert!(bytes_eq(b"", b""));
    assert!(bytes_eq(b"abc", b"abc"));
    assert!(!bytes_eq(b"abc", b"abd"));
    assert!(!bytes_eq(b"abc", b"ab"));
}
