use account_core::account::{Date, Timestamp, User, UserTable};
use account_core::mapped_ids::mapped_ids;
use account_core::mii::MiiData;
use account_core::mii_util::{get_mii_img_url, get_mii_img_url_path};
use account_core::password::generate_password;
use account_core::profile::{build_profile, ProfileIds};
use account_core::provider::{get_nex_token, get_service_token, NexServer};
use account_core::store::TokenStore;
use account_core::codec::{AesKey, TokenData};
use account_core::text::{i32_to_string, parse_i32, strip_newlines, strip_whitespace};
use account_core::timezones::{offset_for, Timezone};
use account_core::user::get_user;
use account_core::xml::YesNoVal;
use account_core::error::ServiceError;
use account_core::graphql::Query;

const TEST_MII: &str = "AwAAQDrPvmeBxJIQ3j+V8Ip4iCWDvgAAAEB5AAAAIABOAEEATQBFAAAAAAAAAEBAAAAhAQJoRBgmNEYUgRIXaA0AACkAUkhQAAAAAAAAAAAAAAAAAAAAAAAAAAAAANzO";

fn test_user(pid: i32, username: &str, cleartext: &str) -> User {
    User {
        pid,
        username: username.to_string(),
        password: generate_password(pid, cleartext).unwrap(),
        birthdate: Date { year: 1990, month: 1, day: 1 },
        timezone: "Europe/Berlin".to_string(),
        email: "someone@example.com".to_string(),
        account_level: 0,
        email_verified_since: None,
        gender: "M".to_string(),
        country: "DE".to_string(),
        language: "en".to_string(),
        marketing_allowed: true,
        off_device_allowed: false,
        region: 1,
        mii_data: TEST_MII.to_string(),
        creation_date: Timestamp { secs: 100 },
        updated: Timestamp { secs: 200 },
        nex_password: "nexpw".to_string(),
        verification_code: None,
    }
}

#[test]
fn parse_i32_cases() {
    assert_eq!(parse_i32("123"), Some(123));
    assert_eq!(parse_i32("+42"), Some(42));
    assert_eq!(parse_i32("-7"), Some(-7));
    assert_eq!(parse_i32("0"), Some(0));
    assert_eq!(parse_i32("0000042"), Some(42));
    assert_eq!(parse_i32("2147483647"), Some(i32::MAX));
    assert_eq!(parse_i32("-2147483648"), Some(i32::MIN));
    assert_eq!(parse_i32("2147483648"), None);
    assert_eq!(parse_i32("-2147483649"), None);
    assert_eq!(parse_i32(""), None);
    assert_eq!(parse_i32("-"), None);
    assert_eq!(parse_i32("+"), None);
    assert_eq!(parse_i32("12a"), None);
    assert_eq!(parse_i32(" 12"), None);
    assert_eq!(parse_i32("99999999999999999999"), None);
}

#[test]
fn decimal_rendering() {
    assert_eq!(i32_to_string(0), "0");
    assert_eq!(i32_to_string(7), "7");
    assert_eq!(i32_to_string(-123), "-123");
    assert_eq!(i32_to_string(i32::MAX), "2147483647");
    assert_eq!(i32_to_string(i32::MIN), "-2147483648");
}

#[test]
fn whitespace_stripping() {
    assert_eq!(strip_newlines("a\nb\rc"), "abc");
    assert_eq!(strip_newlines("a b\tc"), "a b\tc");
    assert_eq!(strip_whitespace(" a\nb\t c\r"), "abc");
    assert_eq!(strip_whitespace(""), "");
}

#[test]
fn yes_no_flag() {
    assert_eq!(YesNoVal::from_str("Y"), Some(YesNoVal(true)));
    assert_eq!(YesNoVal::from_str("N"), Some(YesNoVal(false)));
    assert_eq!(YesNoVal::from_str("X"), None);
    assert_eq!(YesNoVal::from_str(""), None);
    assert_eq!(YesNoVal(true).to_char(), 'Y');
    assert_eq!(YesNoVal(false).to_char(), 'N');
}

#[test]
fn mii_img_urls() {
    assert_eq!(get_mii_img_url_path(42, "png"), "42/main.png");
    assert_eq!(get_mii_img_url("https://mii.example.com", 42, "tga"), "https://mii.example.com/42/main.tga");
}

#[test]
fn mii_name_is_read_from_record() {
    let mii = MiiData::read(TEST_MII).unwrap();
    assert_eq!(mii.name, "y");
    assert_eq!(MiiData::read("AAAA").map(|m| m.name), None);
    assert_eq!(MiiData::read("!!").map(|m| m.name), None);
}

#[test]
fn mapped_ids_both_directions() {
    let mut users = UserTable::new();
    users.insert(test_user(1, "alice", "pw"));
    users.insert(test_user(2, "bob", "pw"));

    let r = mapped_ids(&users, "pid", "user_id", "1,2,3").unwrap();
    let out: Vec<Option<String>> = r.mapped_id.iter().map(|m| m.out_id.clone()).collect();
    assert_eq!(
        out,
        vec![Some("alice".to_string()), Some("bob".to_string()), None]
    );

    let r = mapped_ids(&users, "user_id", "pid", "alice,,mallory").unwrap();
    assert_eq!(r.mapped_id.len(), 2);
    assert_eq!(r.mapped_id[0].in_id, "alice");
    assert_eq!(r.mapped_id[0].out_id, Some("1".to_string()));
    assert_eq!(r.mapped_id[1].out_id, None);

    assert!(mapped_ids(&users, "pid", "pid", "1,notanumber").is_none());
}

#[test]
fn timezone_offsets() {
    let zones = vec![
        Timezone {
            area: "Europe/Berlin".to_string(),
            language: "en".to_string(),
            name: "Amsterdam, Berlin, Rome".to_string(),
            utc_offset: "3600".to_string(),
            order: "0".to_string(),
        },
    ];
    assert_eq!(offset_for(&zones, "Europe/Berlin"), Some("3600".to_string()));
    assert_eq!(offset_for(&zones, "Mars/Olympus"), None);
}

#[test]
fn profile_document_fields() {
    let user = test_user(42, "alice", "pw");
    let ids = ProfileIds { email_id: 11, mii_id: 22, mii_hash: 0xffff_ffff_ffff_ffff, image_url_id: 33 };
    let p = build_profile(user, "3600".to_string(), "https://mii.example.com", ids);
    assert_eq!(p.pid, 42);
    assert_eq!(p.user_id, "alice");
    assert_eq!(p.utc_offset, "3600");
    assert_eq!(p.email.id, 11);
    assert_eq!(p.email.validated, YesNoVal(false));
    assert_eq!(p.email.email_type, "DEFAULT");
    assert_eq!(p.mii.id, 22);
    // top bit of the second-highest nibble is masked out before rendering
    assert_eq!(p.mii.mii_hash, "ffffffffffffffef");
    assert_eq!(p.mii.name, "y");
    assert_eq!(p.mii.mii_images.mii_image.url, "https://mii.example.com/42/main.tga");
    assert_eq!(p.mii.mii_images.mii_image.cached_url, p.mii.mii_images.mii_image.url);
    assert_eq!(p.marketing_flag, YesNoVal(true));
}

#[test]
fn user_info_document_fields() {
    let user = test_user(42, "alice", "pw");
    let info = get_user(user, "cdn.example.com");
    assert_eq!(info.pid, 42);
    assert_eq!(info.username, "alice");
    assert_eq!(info.server_access_level, "test");
    assert_eq!(info.mii.name, "y");
    assert_eq!(
        info.mii.image_url,
        "https://cdn.example.com/mii/42/normal_face.png"
    );
    assert!(!info.deleted);
}

#[test]
fn provider_tokens() {
    let key = AesKey::from_hex("0123456789abcdef0123456789abcdef").unwrap();
    let mut store = TokenStore::new();
    let st = get_service_token(&mut store, &key, 42);
    let payload = TokenData::decode(&st.token, &key).unwrap();
    assert_eq!(payload.pid, 42);

    let servers = vec![
        NexServer {
            game_server_id: "0100".to_string(),
            address: Some((10, 0, 0, 1)),
            port: 60000,
        },
        NexServer {
            game_server_id: "0200".to_string(),
            address: None,
            port: 1,
        },
    ];
    let user = test_user(42, "alice", "pw");
    let nex = get_nex_token(&servers, &mut store, &key, &user, "0100").unwrap();
    assert_eq!(nex.host, "10.0.0.1");
    assert_eq!(nex.port, 60000);
    assert_eq!(nex.pid, 42);
    assert_eq!(nex.nex_password, "nexpw");

    let missing = get_nex_token(&servers, &mut store, &key, &user, "0300").unwrap_err();
    assert_eq!(missing, Some(ServiceError::ServerNotFound));
    let not_v4 = get_nex_token(&servers, &mut store, &key, &user, "0200").unwrap_err();
    assert_eq!(not_v4, Some(ServiceError::NotIpv4));
}

#[test]
fn graphql_queries() {
    let key = AesKey::from_hex("0123456789abcdef0123456789abcdef").unwrap();
    let mut users = UserTable::new();
    let mut u = test_user(42, "alice", "pw");
    u.mii_data = "AA\nBB\r".to_string();
    users.insert(u);
    let mut store = TokenStore::new();
    let token = account_core::store::create_token(
        &mut store,
        &key,
        42,
        account_core::store::TokenType::Auth,
        Some("TITLE".to_string()),
        None,
    );

    assert_eq!(Query::api_version(), "1.0");

    let info = Query::token(&store, &key, &token).unwrap();
    assert_eq!(info.pid, 42);
    assert_eq!(info.title_id, Some("TITLE".to_string()));

    let user_info = Query::user_from_token(&users, &store, &key, &token).unwrap();
    assert_eq!(user_info.username, "alice");
    assert_eq!(user_info.mii_data, "AABB");

    // a decodable token whose triple was never issued authenticates nothing,
    // even though the account it names exists
    let forged = TokenData { pid: 42, random: 1, token_id: 999 }.encode(&key);
    assert!(Query::user_from_token(&users, &store, &key, &forged).is_none());

    assert!(Query::user_by_pid(&users, None, "sekrit", 42).is_none());
    assert!(Query::user_by_pid(&users, Some("wrong"), "sekrit", 42).is_none());
    let by_pid = Query::user_by_pid(&users, Some("sekrit"), "sekrit", 42).unwrap();
    assert_eq!(by_pid.username, "alice");
    let by_name = Query::user_by_username(&users, Some("sekrit"), "sekrit", "alice").unwrap();
    assert_eq!(by_name.pid, 42);
}
