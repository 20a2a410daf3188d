use netowiru::echo::echo_reply;
use netowiru::echo::echo_reply_frame;
use netowiru::echo::echo_session;
use netowiru::echo::format_u64;
use netowiru::echo::reply_matches;
use netowiru::echo::Server;
use netowiru::frame::encode_frame;
use netowiru::ping::ping_message;
use netowiru::ping::Ping;

#[test]
fn decimal_formatting_exact() {
    assert_eq!(format_u64(0), b"0".to_vec());
    assert_eq!(format_u64(7), b"7".to_vec());
    assert_eq!(format_u64(10), b"10".to_vec());
    assert_eq!(format_u64(104), b"104".to_vec());
    assert_eq!(format_u64(u64::MAX), b"18446744073709551615".to_vec());
}

#[test]
fn echo_reply_exact_text() {
    assert_eq!(echo_reply(17, "echo"), b"Echoing back 17 bytes from echo\n".to_vec());
    assert_eq!(echo_reply(0, ""), b"Echoing back 0 bytes from \n".to_vec());
}

#[test]
fn echo_reply_frame_is_the_framed_reply() {
    let reply = echo_reply(5, "echo");
    assert_eq!(echo_reply_frame(5, "echo"), encode_frame(&reply));
}

#[test]
fn reply_matching() {
    let reply = echo_reply(5, "echo");
    assert!(reply_matches(&reply, 5, "echo"));
    assert!(!reply_matches(&reply, 6, "echo"));
    assert!(!reply_matches(&reply, 5, "other"));
}

#[test]
fn echo_conversation_answers_each_frame_in_order() {
    let mut input = encode_frame(b"hello");
    input.extend_from_slice(&encode_frame(b"wo"));
    let mut expected = echo_reply_frame(5, "echo");
    expected.extend_from_slice(&echo_reply_frame(2, "echo"));
    assert_eq!(echo_session(&input, "echo"), expected);
}

#[test]
fn echo_conversation_stops_at_a_zero_length_frame() {
    let mut input = encode_frame(b"hello");
    input.extend_from_slice(&encode_frame(b""));
    input.extend_from_slice(&encode_frame(b"ignored"));
    assert_eq!(echo_session(&input, "echo"), echo_reply_frame(5, "echo"));
}

#[test]
fn echo_conversation_stops_at_an_incomplete_frame() {
    let mut input = encode_frame(b"hello");
    input.extend_from_slice(&[0, 0, 0]);
    assert_eq!(echo_session(&input, "echo"), echo_reply_frame(5, "echo"));
    assert_eq!(echo_session(b"", "echo"), Vec::<u8>::new());
}

#[test]
fn echo_server_identity() {
    let server = Server::new("127.0.0.1:8001", "echo");
    assert_eq!(server.addr(), "127.0.0.1:8001");
    assert_eq!(server.name(), "echo");
}

#[test]
fn ping_message_exact_text() {
    assert_eq!(ping_message(0, "127.0.0.1:8003"), b"Ping 1 to 127.0.0.1:8003\n".to_vec());
    assert_eq!(ping_message(19, "x"), b"Ping 20 to x\n".to_vec());
}

#[test]
fn ping_initiator_keeps_its_settings() {
    let ping = Ping::new("echo", "127.0.0.1:8003", 20, 10);
    assert_eq!(ping.name, "echo");
    assert_eq!(ping.address, "127.0.0.1:8003");
    assert_eq!(ping.count, 20);
    assert_eq!(ping.interval, 10);
}
