use depositor::hexcode::{hex_decode, hex_encode};

#[test]
fn decode_simple() {
    let s = b"00ff10".to_vec();
    let out = hex_decode(&s).unwrap();
    assert_eq!(out, vec![0u8, 255, 16]);
}

#[test]
fn decode_mixed_case() {
    let s = b"DeadBEEF".to_vec();
    let out = hex_decode(&s).unwrap();
    assert_eq!(out, vec![0xde, 0xad, 0xbe, 0xef]);
}

#[test]
fn decode_odd_length_fails() {
    let s = b"abc".to_vec();
    assert!(hex_decode(&s).is_none());
}

#[test]
fn decode_bad_digit_fails() {
    let s = b"0g".to_vec();
    assert!(hex_decode(&s).is_none());
}

#[test]
fn decode_empty() {
    let s = Vec::new();
    let out = hex_decode(&s).unwrap();
    assert!(out.is_empty());
}

#[test]
fn encode_exact() {
    let b = vec![0xde, 0xad, 0x00, 0x01];
    let out = hex_encode(&b);
    assert_eq!(out, b"dead0001".to_vec());
}

#[test]
fn round_trip() {
    let b: Vec<u8> = (0u16..=255).map(|x| x as u8).collect();
    let enc = hex_encode(&b);
    let dec = hex_decode(&enc).unwrap();
    assert_eq!(dec, b);
}
