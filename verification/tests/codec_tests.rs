use calendar_hub::codec::{GenericBinaryMessage, decode_frame, encode_frame};

fn msg(kind: &str, payload: &[u8]) -> GenericBinaryMessage {
    GenericBinaryMessage { kind: kind.to_string(), payload: payload.to_vec() }
}

#[test]
fn encode_exact_bytes_small_payload() {
    let encoded = encode_frame(&msg("echo", b"hi")).unwrap();
    assert_eq!(
        encoded,
        vec![0x92, 0xa4, b'e', b'c', b'h', b'o', 0xc4, 2, b'h', b'i'],
    );
}

#[test]
fn encode_exact_bytes_empty_fields() {
    let encoded = encode_frame(&msg("", b"")).unwrap();
    assert_eq!(encoded, vec![0x92, 0xa0, 0xc4, 0]);
}

#[test]
fn encode_rejects_long_kind() {
    let long_kind = "k".repeat(32);
    assert!(encode_frame(&msg(&long_kind, b"x")).is_none());
    let edge_kind = "k".repeat(31);
    assert!(encode_frame(&msg(&edge_kind, b"x")).is_some());
}

#[test]
fn round_trip_small() {
    let original = msg("broadcast", b"payload bytes");
    let encoded = encode_frame(&original).unwrap();
    let decoded = decode_frame(&encoded).unwrap();
    assert_eq!(decoded.kind, "broadcast");
    assert_eq!(decoded.payload, b"payload bytes".to_vec());
}

#[test]
fn round_trip_bin16_payload() {
    let payload: Vec<u8> = (0..0x1234).map(|i| (i % 251) as u8).collect();
    let original = msg("echo", &payload);
    let encoded = encode_frame(&original).unwrap();
    // bin 16 header: marker, then the length big-endian.
    let header_at = 1 + 1 + 4;
    assert_eq!(encoded[header_at], 0xc5);
    assert_eq!(encoded[header_at + 1], 0x12);
    assert_eq!(encoded[header_at + 2], 0x34);
    let decoded = decode_frame(&encoded).unwrap();
    assert_eq!(decoded.kind, "echo");
    assert_eq!(decoded.payload, payload);
}

#[test]
fn round_trip_bin32_payload() {
    let payload: Vec<u8> = (0..0x10002).map(|i| (i % 13) as u8).collect();
    let original = msg("e", &payload);
    let encoded = encode_frame(&original).unwrap();
    let header_at = 1 + 1 + 1;
    assert_eq!(encoded[header_at], 0xc6);
    assert_eq!(
        &encoded[header_at + 1..header_at + 5],
        &[0x00, 0x01, 0x00, 0x02],
    );
    let decoded = decode_frame(&encoded).unwrap();
    assert_eq!(decoded.payload, payload);
}

#[test]
fn round_trip_unicode_kind() {
    let original = msg("écho", b"x");
    let encoded = encode_frame(&original).unwrap();
    // 'é' takes two UTF-8 bytes, so the tag header says five.
    assert_eq!(encoded[1], 0xa5);
    let decoded = decode_frame(&encoded).unwrap();
    assert_eq!(decoded.kind, "écho");
}

#[test]
fn decode_rejects_garbage() {
    assert!(decode_frame(&vec![]).is_none());
    assert!(decode_frame(&vec![0x92]).is_none());
    assert!(decode_frame(&vec![0x91, 0xa0, 0xc4, 0]).is_none());
    assert!(decode_frame(&b"not a frame at all".to_vec()).is_none());
}

#[test]
fn decode_rejects_bad_kind_header() {
    // 0x90 is below the short-string range.
    assert!(decode_frame(&vec![0x92, 0x90, 0xc4, 0]).is_none());
    // 0xc0 is past it.
    assert!(decode_frame(&vec![0x92, 0xc0, 0xc4, 0]).is_none());
}

#[test]
fn decode_rejects_invalid_utf8_kind() {
    assert!(decode_frame(&vec![0x92, 0xa1, 0xff, 0xc4, 0]).is_none());
}

#[test]
fn decode_rejects_truncated_payload() {
    // Header says two payload bytes, only one follows.
    assert!(decode_frame(&vec![0x92, 0xa0, 0xc4, 2, b'h']).is_none());
}

#[test]
fn decode_rejects_trailing_bytes() {
    let mut encoded = encode_frame(&msg("echo", b"hi")).unwrap();
    encoded.push(0x00);
    assert!(decode_frame(&encoded).is_none());
}

#[test]
fn decode_accepts_wider_length_headers() {
    // The same two-byte payload, sent with a two-byte length header.
    let frame = vec![0x92, 0xa4, b'e', b'c', b'h', b'o', 0xc5, 0, 2, b'h', b'i'];
    let decoded = decode_frame(&frame).unwrap();
    assert_eq!(decoded.kind, "echo");
    assert_eq!(decoded.payload, b"hi".to_vec());
}
