use account_core::account::{Date, Timestamp, User, UserTable};
use account_core::codec::AesKey;
use account_core::error::ServiceError;
use account_core::login::{login, LoginRequest};
use account_core::oauth::{generate_token, TokenRequestData};
use account_core::password::{generate_nintendo_hash, generate_password};
use account_core::people::{create_account, person_exists, AccountCreationData, Email, Mii};
use account_core::pid_distribution::PidAllocator;
use account_core::store::TokenStore;
use account_core::support::verify_email;
use account_core::xml::YesNoVal;

fn test_key() -> AesKey {
    AesKey::from_hex("0123456789abcdef0123456789abcdef").unwrap()
}

fn test_user(pid: i32, username: &str, cleartext: &str) -> User {
    User {
        pid,
        username: username.to_string(),
        password: generate_password(pid, cleartext).unwrap(),
        birthdate: Date { year: 1990, month: 1, day: 1 },
        timezone: "Europe/Berlin".to_string(),
        email: "someone@example.com".to_string(),
        account_level: 0,
        email_verified_since: None,
        gender: "M".to_string(),
        country: "DE".to_string(),
        language: "en".to_string(),
        marketing_allowed: false,
        off_device_allowed: false,
        region: 1,
        mii_data: String::new(),
        creation_date: Timestamp { secs: 0 },
        updated: Timestamp { secs: 0 },
        nex_password: "nexpw".to_string(),
        verification_code: Some(654321),
    }
}

fn creation_data(user_id: &str) -> AccountCreationData {
    AccountCreationData {
        birth_date: Date { year: 1991, month: 2, day: 3 },
        user_id: user_id.to_string(),
        password: "hunter2".to_string(),
        country: "DE".to_string(),
        language: "en".to_string(),
        tz_name: "Europe/Berlin".to_string(),
        email: Email { address: "tester@example.com".to_string() },
        mii: Mii {
            name: "y".to_string(),
            primary: YesNoVal(true),
            data: "AAAA".to_string(),
        },
        gender: "M".to_string(),
        marketing_flag: YesNoVal(false),
        off_device_flag: YesNoVal(false),
        region: 1309343744,
    }
}

#[test]
fn create_account_inserts_verifiable_row() {
    let mut table = UserTable::new();
    let mut alloc = PidAllocator { next: 1 };
    let now = Timestamp { secs: 1000 };
    let resp = create_account(&mut table, &mut alloc, creation_data("testtest"), now).unwrap();
    assert_eq!(resp.pid, 1);
    let row = table.get_by_username("testtest").unwrap();
    assert_eq!(row.pid, 1);
    assert_eq!(row.verify_cleartext_password("hunter2"), Some(true));
    assert_eq!(row.verify_cleartext_password("wrong"), Some(false));
    let code = row.verification_code.unwrap();
    assert!((100000..1000000).contains(&code));
}

#[test]
fn person_exists_reports_taken_names() {
    let mut table = UserTable::new();
    table.insert(test_user(1, "alice", "pw"));
    assert_eq!(person_exists(&table, "alice"), Err(ServiceError::AccountIdExists));
    assert_eq!(person_exists(&table, "bob"), Ok(()));
}

#[test]
fn verify_email_checks_the_stored_code() {
    let mut table = UserTable::new();
    table.insert(test_user(5, "alice", "pw"));
    let now = Timestamp { secs: 99 };
    assert_eq!(
        verify_email(&mut table, 5, 111111, now),
        Err(ServiceError::BadVerificationCode)
    );
    assert_eq!(
        verify_email(&mut table, 6, 654321, now),
        Err(ServiceError::BadVerificationCode)
    );
    assert!(table.get_by_pid(5).unwrap().email_verified_since.is_none());
    assert_eq!(verify_email(&mut table, 5, 654321, now), Ok(()));
    assert_eq!(table.get_by_pid(5).unwrap().email_verified_since, Some(now));
}

#[test]
fn token_grant_wants_hashed_password() {
    let key = test_key();
    let mut users = UserTable::new();
    users.insert(test_user(42, "alice", "hunter2"));
    let mut store = TokenStore::new();
    let now = Timestamp { secs: 0 };
    let data = TokenRequestData {
        grant_type: "password".to_string(),
        user_id: "alice".to_string(),
        password: generate_nintendo_hash(42, "hunter2"),
        password_type: "hash".to_string(),
    };
    let resp = generate_token(&users, &mut store, &key, &data, now).unwrap();
    assert_eq!(resp.access_token.expires_in, 3600);
    assert_eq!(store.rows.len(), 2);

    let bad = TokenRequestData {
        grant_type: "password".to_string(),
        user_id: "alice".to_string(),
        password: generate_nintendo_hash(42, "wrong"),
        password_type: "hash".to_string(),
    };
    assert_eq!(
        generate_token(&users, &mut store, &key, &bad, now).unwrap_err(),
        ServiceError::InvalidAccountOrPassword
    );
}

#[test]
fn token_grant_rejects_banned_account() {
    let key = test_key();
    let mut users = UserTable::new();
    let mut banned = test_user(8, "mallory", "pw");
    banned.account_level = -1;
    users.insert(banned);
    let mut store = TokenStore::new();
    let now = Timestamp { secs: 0 };
    let data = TokenRequestData {
        grant_type: "password".to_string(),
        user_id: "mallory".to_string(),
        password: generate_nintendo_hash(8, "pw"),
        password_type: "hash".to_string(),
    };
    assert_eq!(
        generate_token(&users, &mut store, &key, &data, now).unwrap_err(),
        ServiceError::DeviceBanned
    );
    assert_eq!(store.rows.len(), 0);
}

#[test]
fn login_password_then_refresh() {
    let key = test_key();
    let mut users = UserTable::new();
    users.insert(test_user(42, "alice", "hunter2"));
    let mut store = TokenStore::new();
    let now = Timestamp { secs: 0 };

    let req = LoginRequest {
        grant_type: "password".to_string(),
        username: Some("alice".to_string()),
        password: Some("hunter2".to_string()),
        refresh_token: None,
    };
    let resp = login(&users, &mut store, &key, &req, now).unwrap();
    assert_eq!(resp.token_type, "Bearer");
    assert_eq!(resp.expires_in, 3600);

    let refresh = LoginRequest {
        grant_type: "refresh_token".to_string(),
        username: None,
        password: None,
        refresh_token: Some(resp.refresh_token),
    };
    let resp2 = login(&users, &mut store, &key, &refresh, now).unwrap();
    assert_eq!(resp2.token_type, "Bearer");
}

#[test]
fn login_error_cases() {
    let key = test_key();
    let mut users = UserTable::new();
    users.insert(test_user(42, "alice", "hunter2"));
    let mut store = TokenStore::new();
    let now = Timestamp { secs: 0 };

    let bad_grant = LoginRequest {
        grant_type: "authorization_code".to_string(),
        username: None,
        password: None,
        refresh_token: None,
    };
    assert_eq!(
        login(&users, &mut store, &key, &bad_grant, now).unwrap_err(),
        ServiceError::InvalidGrantType
    );

    let bad_password = LoginRequest {
        grant_type: "password".to_string(),
        username: Some("alice".to_string()),
        password: Some("wrong".to_string()),
        refresh_token: None,
    };
    assert_eq!(
        login(&users, &mut store, &key, &bad_password, now).unwrap_err(),
        ServiceError::InvalidAccountOrPassword
    );

    let bad_refresh = LoginRequest {
        grant_type: "refresh_token".to_string(),
        username: None,
        password: None,
        refresh_token: Some("garbage".to_string()),
    };
    assert_eq!(
        login(&users, &mut store, &key, &bad_refresh, now).unwrap_err(),
        ServiceError::InvalidRefreshToken
    );
}

#[test]
fn stale_refresh_token_cannot_log_in() {
    let key = test_key();
    let mut users = UserTable::new();
    users.insert(test_user(42, "alice", "hunter2"));
    let mut store = TokenStore::new();
    let now = Timestamp { secs: 1000 };
    let past = Timestamp { secs: 999 };
    let payload = store.issue(
        42,
        account_core::store::TokenType::AuthRefresh,
        None,
        7,
        Some(past),
    );
    let stale = payload.encode(&key);
    let req = LoginRequest {
        grant_type: "refresh_token".to_string(),
        username: None,
        password: None,
        refresh_token: Some(stale),
    };
    assert_eq!(
        login(&users, &mut store, &key, &req, now).unwrap_err(),
        ServiceError::InvalidRefreshToken
    );
}

#[test]
fn error_wire_codes() {
    assert_eq!(ServiceError::InvalidToken.code(), "0005");
    assert_eq!(ServiceError::InvalidToken.message(), "Invalid access token");
    assert_eq!(ServiceError::InvalidAccountOrPassword.code(), "0106");
    assert_eq!(ServiceError::DeviceBanned.code(), "0122");
    assert_eq!(ServiceError::InvalidGrantType.code(), "0100");
    assert_eq!(ServiceError::InvalidRefreshToken.code(), "0107");
    assert_eq!(ServiceError::BadVerificationCode.code(), "0116");
    assert_eq!(ServiceError::AccountIdExists.code(), "0100");
    assert_eq!(ServiceError::AccountIdExists.message(), "Account ID already exists");
    assert_eq!(ServiceError::ServerNotFound.code(), "1021");
    assert_eq!(ServiceError::NotIpv4.code(), "1022");
    assert_eq!(ServiceError::Database.code(), "9999");
    let errors = ServiceError::InvalidToken.to_errors();
    assert_eq!(errors.error.len(), 1);
    assert_eq!(errors.error[0].code, "0005");
}
