use account_core::account::{Date, Timestamp, User, UserTable};
use account_core::codec::AesKey;
use account_core::error::ServiceError;
use account_core::password::generate_password;
use account_core::resolver::{read_basic_auth_token, read_bearer_auth_token, Auth};
use account_core::store::{create_token, TokenStore, TokenType};
use base64::Engine;

fn test_key() -> AesKey {
    AesKey::from_hex("0123456789abcdef0123456789abcdef").unwrap()
}

fn test_user(pid: i32, username: &str, cleartext: &str) -> User {
    User {
        pid,
        username: username.to_string(),
        password: generate_password(pid, cleartext).unwrap(),
        birthdate: Date { year: 1990, month: 1, day: 1 },
        timezone: "Europe/Berlin".to_string(),
        email: "someone@example.com".to_string(),
        account_level: 0,
        email_verified_since: None,
        gender: "M".to_string(),
        country: "DE".to_string(),
        language: "en".to_string(),
        marketing_allowed: false,
        off_device_allowed: false,
        region: 1,
        mii_data: String::new(),
        creation_date: Timestamp { secs: 0 },
        updated: Timestamp { secs: 0 },
        nex_password: "nexpw".to_string(),
        verification_code: None,
    }
}

fn basic_header(username: &str, password: &str) -> String {
    let creds = base64::prelude::BASE64_STANDARD.encode(format!("{} {}", username, password));
    format!("Basic {}", creds)
}

#[test]
fn basic_auth_accepts_valid_credentials() {
    let mut users = UserTable::new();
    users.insert(test_user(42, "alice", "hunter2"));
    let creds = base64::prelude::BASE64_STANDARD.encode("alice hunter2");
    let user = read_basic_auth_token(&users, &creds).unwrap();
    assert_eq!(user.pid, 42);
}

#[test]
fn basic_auth_splits_on_first_space_only() {
    // a password containing spaces survives the split
    let mut users = UserTable::new();
    users.insert(test_user(7, "bob", "pass with spaces"));
    let creds = base64::prelude::BASE64_STANDARD.encode("bob pass with spaces");
    assert!(read_basic_auth_token(&users, &creds).is_some());
}

#[test]
fn basic_auth_rejects_wrong_password_and_unknown_user() {
    let mut users = UserTable::new();
    users.insert(test_user(42, "alice", "hunter2"));
    let wrong = base64::prelude::BASE64_STANDARD.encode("alice hunter3");
    assert!(read_basic_auth_token(&users, &wrong).is_none());
    let unknown = base64::prelude::BASE64_STANDARD.encode("mallory hunter2");
    assert!(read_basic_auth_token(&users, &unknown).is_none());
    assert!(read_basic_auth_token(&users, "!!!not base64!!!").is_none());
    let no_space = base64::prelude::BASE64_STANDARD.encode("alicehunter2");
    assert!(read_basic_auth_token(&users, &no_space).is_none());
}

#[test]
fn bearer_auth_accepts_issued_token() {
    let key = test_key();
    let mut users = UserTable::new();
    users.insert(test_user(42, "alice", "hunter2"));
    let mut store = TokenStore::new();
    let token = create_token(&mut store, &key, 42, TokenType::Auth, None, None);
    let now = Timestamp { secs: 0 };
    let user = read_bearer_auth_token(&users, &store, &key, &token, now).unwrap();
    assert_eq!(user.pid, 42);
}

#[test]
fn bearer_auth_rejects_garbage_and_foreign_tokens() {
    let key = test_key();
    let users = UserTable::new();
    let store = TokenStore::new();
    let now = Timestamp { secs: 0 };
    assert!(read_bearer_auth_token(&users, &store, &key, "garbage", now).is_none());

    // a token enciphered under another key is not accepted
    let other = AesKey::from_hex("ffffffffffffffffffffffffffffffff").unwrap();
    let mut other_store = TokenStore::new();
    let token = create_token(&mut other_store, &other, 42, TokenType::Auth, None, None);
    assert!(read_bearer_auth_token(&users, &other_store, &key, &token, now).is_none());
}

#[test]
fn mode_enforcement_rejects_valid_basic_under_bearer_only_policy() {
    let key = test_key();
    let mut users = UserTable::new();
    users.insert(test_user(42, "alice", "hunter2"));
    let store = TokenStore::new();
    let now = Timestamp { secs: 0 };
    let header = basic_header("alice", "hunter2");

    // permissive policy: the same header authenticates
    let ok = Auth::<false>::from_header(&users, &store, &key, Some(&header), now);
    assert_eq!(ok.unwrap().0.pid, 42);

    // bearer-only policy: rejected with the generic failure
    let rejected = Auth::<true>::from_header(&users, &store, &key, Some(&header), now);
    assert_eq!(rejected.unwrap_err(), ServiceError::InvalidToken);
}

#[test]
fn every_resolver_failure_is_the_generic_error() {
    let key = test_key();
    let users = UserTable::new();
    let store = TokenStore::new();
    let now = Timestamp { secs: 0 };
    let cases: Vec<Option<&str>> = vec![
        None,
        Some("garbage"),
        Some("Unknown scheme"),
        Some("Bearer garbage"),
        Some("Basic !!!"),
    ];
    for header in cases {
        let r = Auth::<false>::from_header(&users, &store, &key, header, now);
        assert_eq!(r.unwrap_err(), ServiceError::InvalidToken);
    }
}

#[test]
fn bearer_header_rejects_stale_refresh_session() {
    let key = test_key();
    let mut users = UserTable::new();
    users.insert(test_user(42, "alice", "hunter2"));
    let mut store = TokenStore::new();
    let now = Timestamp { secs: 1000 };
    let past = Timestamp { secs: 1 };
    let payload = store.issue(42, TokenType::AuthRefresh, None, 7, Some(past));
    let header = format!("Bearer {}", payload.encode(&key));
    let r = Auth::<false>::from_header(&users, &store, &key, Some(&header), now);
    assert_eq!(r.unwrap_err(), ServiceError::InvalidToken);
}

#[test]
fn bearer_header_resolves_issued_token() {
    let key = test_key();
    let mut users = UserTable::new();
    users.insert(test_user(9, "carol", "pw"));
    let mut store = TokenStore::new();
    let token = create_token(&mut store, &key, 9, TokenType::Auth, None, None);
    let header = format!("Bearer {}", token);
    let now = Timestamp { secs: 0 };
    let auth = Auth::<true>::from_header(&users, &store, &key, Some(&header), now).unwrap();
    assert_eq!(auth.into_user().username, "carol");
}
