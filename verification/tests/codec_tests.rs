use account_core::codec::{AesKey, TokenData};
use base64::Engine;

fn test_key() -> AesKey {
    AesKey::from_hex("0123456789abcdef0123456789abcdef").unwrap()
}

#[test]
fn test_encode_decode() {
    let key = test_key();

    let token_data = TokenData { pid: 1, random: 2, token_id: 3 };

    let enc_data = token_data.encode(&key);

    // standard base64 of one 16-byte block: exactly 24 characters
    assert_eq!(enc_data.len(), 24);

    let decrypted_token = TokenData::decode(&enc_data, &key).unwrap();

    assert_eq!(token_data, decrypted_token)
}

#[test]
fn round_trip_extreme_payloads() {
    let key = test_key();
    let payloads = vec![
        TokenData { pid: 0, random: 0, token_id: 0 },
        TokenData { pid: i32::MIN, random: i32::MAX, token_id: i64::MIN },
        TokenData { pid: i32::MAX, random: i32::MIN, token_id: i64::MAX },
        TokenData { pid: -1, random: -1, token_id: -1 },
        TokenData { pid: 42, random: 7, token_id: 123456789 },
    ];
    for p in payloads {
        let enc = p.encode(&key);
        assert_eq!(TokenData::decode(&enc, &key), Some(p));
    }
}

#[test]
fn decode_rejects_bad_base64() {
    let key = test_key();
    assert_eq!(TokenData::decode("not-base64!!", &key), None);
}

#[test]
fn decode_rejects_wrong_length() {
    let key = test_key();
    let short = base64::prelude::BASE64_STANDARD.encode([1u8, 2, 3, 4, 5]);
    assert_eq!(TokenData::decode(&short, &key), None);
    let long = base64::prelude::BASE64_STANDARD.encode([0u8; 32]);
    assert_eq!(TokenData::decode(&long, &key), None);
}

#[test]
fn decode_is_not_plain_deserialization() {
    // The codec enciphers the block: handing it the raw serialized payload
    // must not give that payload back.
    let key = test_key();
    let p = TokenData { pid: 1, random: 2, token_id: 3 };
    let plain = account_core::codec::payload_to_bytes(&p);
    let fake = base64::prelude::BASE64_STANDARD.encode(&plain);
    let decoded = TokenData::decode(&fake, &key).unwrap();
    assert_ne!(decoded, p);
}

#[test]
fn key_parsing() {
    assert!(AesKey::from_hex("0123456789abcdef0123456789abcdef").is_some());
    // upper case is accepted
    assert!(AesKey::from_hex("0123456789ABCDEF0123456789ABCDEF").is_some());
    // wrong length
    assert!(AesKey::from_hex("0123456789abcdef").is_none());
    // odd length
    assert!(AesKey::from_hex("0123456789abcdef0123456789abcde").is_none());
    // not hex
    assert!(AesKey::from_hex("0123456789abcdeg0123456789abcdef").is_none());
}

#[test]
fn payload_layout_is_little_endian_fixed_order() {
    let p = TokenData { pid: 0x01020304, random: 0x05060708, token_id: 0x090a0b0c0d0e0f10 };
    let bytes = account_core::codec::payload_to_bytes(&p);
    assert_eq!(
        bytes,
        vec![
            0x04, 0x03, 0x02, 0x01, 0x08, 0x07, 0x06, 0x05, 0x10, 0x0f, 0x0e, 0x0d, 0x0c, 0x0b,
            0x0a, 0x09
        ]
    );
    assert_eq!(account_core::codec::bytes_to_payload(&bytes), p);
}
