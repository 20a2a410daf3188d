use netowiru::frame::encode_frame;
use netowiru::frame::parse_frame;
use netowiru::frame::u64_from_be_bytes;
use netowiru::frame::u64_to_be_bytes;

#[test]
fn u64_big_endian_exact_bytes() {
    assert_eq!(u64_to_be_bytes(0), vec![0, 0, 0, 0, 0, 0, 0, 0]);
    assert_eq!(u64_to_be_bytes(4), vec![0, 0, 0, 0, 0, 0, 0, 4]);
    assert_eq!(
        u64_to_be_bytes(0x0102030405060708),
        vec![1, 2, 3, 4, 5, 6, 7, 8]
    );
    assert_eq!(
        u64_to_be_bytes(u64::MAX),
        vec![0xff, 0xff, 0xff, 0xff, 0xff, 0xff, 0xff, 0xff]
    );
}

#[test]
fn u64_big_endian_round_trip() {
    for x in [0u64, 1, 255, 256, 0xdead_beef, u64::MAX] {
        let bytes = u64_to_be_bytes(x);
        assert_eq!(u64_from_be_bytes(&bytes), x);
    }
}

#[test]
fn frame_has_length_prefix_then_payload() {
    let frame = encode_frame(b"echo");
    assert_eq!(frame, vec![0, 0, 0, 0, 0, 0, 0, 4, b'e', b'c', b'h', b'o']);
}

#[test]
fn frame_of_empty_payload() {
    let frame = encode_frame(b"");
    assert_eq!(frame, vec![0, 0, 0, 0, 0, 0, 0, 0]);
}

#[test]
fn parse_recovers_framed_payload_and_leaves_rest() {
    let mut data = encode_frame(b"service");
    data.extend_from_slice(b"trailing bytes");
    let (payload, consumed) = parse_frame(&data).expect("complete frame");
    assert_eq!(payload, b"service".to_vec());
    assert_eq!(consumed, 8 + 7);
    assert_eq!(&data[consumed..], b"trailing bytes");
}

#[test]
fn parse_rejects_incomplete_prefix() {
    let frame = encode_frame(b"echo");
    for k in 0..8 {
        assert!(parse_frame(&frame[..k]).is_none());
    }
}

#[test]
fn parse_rejects_incomplete_payload() {
    let frame = encode_frame(b"echo");
    for k in 8..frame.len() {
        assert!(parse_frame(&frame[..k]).is_none());
    }
    assert!(parse_frame(&frame).is_some());
}
