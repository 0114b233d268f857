use ytune::frame::{decode_header, decode_message, encode_frame, needs_payload_read, try_encode_frame, ChannelError, FrameHeader};
use ytune::text::{escape_json, str_contains, u64_dec};

#[test]
fn frame_layout_exact() {
    let f = encode_frame(1, b"hi");
    assert_eq!(f, vec![1, 0, 0, 0, 2, 0, 0, 0, b'h', b'i']);
}

#[test]
fn frame_round_trip() {
    let payload = "payload with unicode: \u{00e9}\u{1f3b5}";
    let f = encode_frame(7, payload.as_bytes());
    let h = decode_header(&f[0..8]);
    assert_eq!(h.opcode, 7);
    assert_eq!(h.length as usize, payload.len());
    assert!(needs_payload_read(&h));
    let m = decode_message(h, f[8..].to_vec()).unwrap();
    assert_eq!(m.opcode, 7);
    assert_eq!(m.payload, payload);
}

#[test]
fn zero_length_payload_reads_nothing() {
    let f = encode_frame(3, b"");
    assert_eq!(f.len(), 8);
    let h = decode_header(&f);
    assert_eq!(h.opcode, 3);
    assert_eq!(h.length, 0);
    assert!(!needs_payload_read(&h));
    let m = decode_message(h, Vec::new()).unwrap();
    assert_eq!(m.opcode, 3);
    assert_eq!(m.payload, "");
}

#[test]
fn large_opcode_and_length_little_endian() {
    let payload = vec![0u8; 300];
    let f = encode_frame(0x01020304, &payload);
    assert_eq!(&f[0..4], &[0x04, 0x03, 0x02, 0x01]);
    assert_eq!(&f[4..8], &[44, 1, 0, 0]);
}

#[test]
fn malformed_payload_is_not_text() {
    let h = FrameHeader { opcode: 1, length: 2 };
    let r = decode_message(h, vec![0xff, 0xfe]);
    assert_eq!(r.unwrap_err(), ChannelError::MalformedPayload);
}

#[test]
fn try_encode_frame_accepts_ordinary_payloads() {
    let f = try_encode_frame(2, b"abc").unwrap();
    assert_eq!(f, vec![2, 0, 0, 0, 3, 0, 0, 0, b'a', b'b', b'c']);
}

#[test]
fn escape_quotes_backslashes_and_controls() {
    assert_eq!(escape_json(b"plain"), b"plain".to_vec());
    assert_eq!(escape_json(b"a\"b"), b"a\\\"b".to_vec());
    assert_eq!(escape_json(b"a\\b"), b"a\\\\b".to_vec());
    assert_eq!(escape_json(b"a\nb"), b"a\\u000ab".to_vec());
    assert_eq!(escape_json(b"\x1f"), b"\\u001f".to_vec());
    assert_eq!(escape_json("caf\u{00e9}".as_bytes()), "caf\u{00e9}".as_bytes().to_vec());
}

#[test]
fn decimal_rendering_exact() {
    assert_eq!(u64_dec(0), b"0".to_vec());
    assert_eq!(u64_dec(9), b"9".to_vec());
    assert_eq!(u64_dec(10), b"10".to_vec());
    assert_eq!(u64_dec(1356377176), b"1356377176".to_vec());
    assert_eq!(u64_dec(u64::MAX), b"18446744073709551615".to_vec());
}

#[test]
fn substring_search() {
    assert!(str_contains("{\"cmd\":\"SET_ACTIVITY\",\"evt\":\"ERROR\"}", "\"evt\":\"ERROR\""));
    assert!(!str_contains("{\"cmd\":\"SET_ACTIVITY\"}", "\"evt\":\"ERROR\""));
    assert!(str_contains("abc", ""));
    assert!(!str_contains("ab", "abc"));
    assert!(str_contains("aaab", "aab"));
}
