use sol_gateway::codec::{base58_round_trip, base64_round_trip, decode_base58, decode_base64,
    encode_base58, encode_base64};

#[test]
fn base58_known_values() {
    assert_eq!(encode_base58(&[]), "");
    assert_eq!(encode_base58(&[0]), "1");
    assert_eq!(encode_base58(&[0, 0]), "11");
    assert_eq!(encode_base58(&[58]), "21");
    assert_eq!(encode_base58(&[0u8; 32]), "11111111111111111111111111111111");
}

#[test]
fn base58_decode_known_values() {
    assert_eq!(decode_base58("").unwrap(), Vec::<u8>::new());
    assert_eq!(decode_base58("1").unwrap(), vec![0]);
    assert_eq!(decode_base58("21").unwrap(), vec![58]);
    assert_eq!(decode_base58("11111111111111111111111111111111").unwrap(), vec![0u8; 32]);
}

#[test]
fn base58_rejects_malformed_text() {
    assert_eq!(decode_base58("0").unwrap_err(), "Invalid Base58 string");
    assert_eq!(decode_base58("I").unwrap_err(), "Invalid Base58 string");
    assert_eq!(decode_base58("O0l").unwrap_err(), "Invalid Base58 string");
    assert_eq!(decode_base58("hello world!").unwrap_err(), "Invalid Base58 string");
}

#[test]
fn base58_round_trips() {
    for bytes in [vec![], vec![0, 0, 5], vec![1, 2, 3, 255], vec![7u8; 64]] {
        assert_eq!(decode_base58(&encode_base58(&bytes)).unwrap(), bytes);
        assert_eq!(base58_round_trip(&bytes), bytes);
    }
}

#[test]
fn base64_known_values() {
    assert_eq!(encode_base64(&[]), "");
    assert_eq!(encode_base64(&[1, 2, 3]), "AQID");
    assert_eq!(encode_base64(b"hello"), "aGVsbG8=");
}

#[test]
fn base64_decode_known_values() {
    assert_eq!(decode_base64("AQID").unwrap(), vec![1, 2, 3]);
    assert_eq!(decode_base64("aGVsbG8=").unwrap(), b"hello".to_vec());
}

#[test]
fn base64_rejects_malformed_text() {
    assert_eq!(decode_base64("%%%").unwrap_err(), "Invalid Base64 string");
    assert_eq!(decode_base64("A").unwrap_err(), "Invalid Base64 string");
}

#[test]
fn base64_round_trips() {
    for bytes in [vec![], vec![0], vec![0, 0, 200], vec![255u8; 33]] {
        assert_eq!(decode_base64(&encode_base64(&bytes)).unwrap(), bytes);
        assert_eq!(base64_round_trip(&bytes), bytes);
    }
}
