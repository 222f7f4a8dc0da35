use account_core::account::Timestamp;
use account_core::codec::{AesKey, TokenData};
use account_core::store::{TokenStore, TokenType, create_token};

fn test_key() -> AesKey {
    AesKey::from_hex("00112233445566778899aabbccddeeff").unwrap()
}

#[test]
fn resolve_needs_all_three_fields() {
    let mut store = TokenStore::new();
    let now = Timestamp { secs: 1000 };
    let payload = store.issue(42, TokenType::Auth, None, 777, None);

    assert!(store.resolve(&payload, now).is_some());

    let wrong_pid = TokenData { pid: 43, ..payload };
    assert!(store.resolve(&wrong_pid, now).is_none());

    let wrong_random = TokenData { random: 778, ..payload };
    assert!(store.resolve(&wrong_random, now).is_none());

    let wrong_id = TokenData { token_id: payload.token_id + 1, ..payload };
    assert!(store.resolve(&wrong_id, now).is_none());
}

#[test]
fn expired_refresh_session_is_not_found() {
    let mut store = TokenStore::new();
    let now = Timestamp { secs: 1000 };
    let past = Timestamp { secs: 999 };
    let payload = store.issue(42, TokenType::AuthRefresh, None, 5, Some(past));
    // fully matching triple, but the refresh session is stale
    assert!(store.resolve(&payload, now).is_none());
    // the triple itself still matches a row
    assert!(store.lookup_triple(&payload).is_some());
}

#[test]
fn future_expiry_still_resolves() {
    let mut store = TokenStore::new();
    let now = Timestamp { secs: 1000 };
    let future = Timestamp { secs: 1001 };
    let payload = store.issue(42, TokenType::AuthRefresh, None, 5, Some(future));
    assert!(store.resolve(&payload, now).is_some());
}

#[test]
fn access_class_expiry_is_not_checked() {
    let mut store = TokenStore::new();
    let now = Timestamp { secs: 1000 };
    let past = Timestamp { secs: 1 };
    let payload = store.issue(42, TokenType::Auth, None, 5, Some(past));
    assert!(store.resolve(&payload, now).is_some());
}

#[test]
fn issued_token_ids_are_unique() {
    let mut store = TokenStore::new();
    let a = store.issue(1, TokenType::Auth, None, 1, None);
    let b = store.issue(1, TokenType::Auth, None, 1, None);
    let c = store.issue(2, TokenType::Nex, None, 1, None);
    assert_ne!(a.token_id, b.token_id);
    assert_ne!(b.token_id, c.token_id);
    assert_ne!(a.token_id, c.token_id);
}

#[test]
fn create_token_round_trips_through_codec() {
    let key = test_key();
    let mut store = TokenStore::new();
    let now = Timestamp { secs: 50 };
    let token = create_token(&mut store, &key, 9, TokenType::Nex, None, None);
    let payload = TokenData::decode(&token, &key).unwrap();
    assert_eq!(payload.pid, 9);
    let rec = store.resolve(&payload, now).unwrap();
    assert_eq!(rec.pid, 9);
    assert_eq!(rec.token_type, TokenType::Nex);
}

#[test]
fn end_to_end_issue_encode_decode_resolve() {
    // Issue AUTH for pid 42, encode, decode, resolve against a store holding
    // exactly that row; then flip one bit of the decoded pid and re-encode:
    // resolution must fail.
    let key = test_key();
    let mut store = TokenStore::new();
    let now = Timestamp { secs: 12345 };
    let payload = store.issue(42, TokenType::Auth, None, 31337, None);
    assert_eq!(store.rows.len(), 1);

    let opaque = payload.encode(&key);
    let decoded = TokenData::decode(&opaque, &key).unwrap();
    assert_eq!(decoded, payload);
    let rec = store.resolve(&decoded, now).unwrap();
    assert_eq!(rec.pid, 42);

    let tampered = TokenData { pid: decoded.pid ^ 1, ..decoded };
    let reencoded = tampered.encode(&key);
    let tampered_decoded = TokenData::decode(&reencoded, &key).unwrap();
    assert!(store.resolve(&tampered_decoded, now).is_none());
}

#[test]
fn token_type_codes() {
    assert_eq!(TokenType::AuthRefresh.code(), 0);
    assert_eq!(TokenType::Auth.code(), 1);
    assert_eq!(TokenType::Nex.code(), 2);
}
