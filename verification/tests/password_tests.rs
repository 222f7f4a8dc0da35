use account_core::password::{generate_nintendo_hash, generate_password, verify_cleartext};

#[test]
fn legacy_hash_exact_value() {
    assert_eq!(
        generate_nintendo_hash(1, "pw"),
        "10f499c57675863449454e2b25acbae422ecf3718f78cfc447aec3a29ede0a38"
    );
    assert_eq!(
        generate_nintendo_hash(2, "pw"),
        "c22d1605c0033079f787dcc0aa64edfe07b3d1d39f3bf89a9046183da82f730e"
    );
    assert_eq!(
        generate_nintendo_hash(42, "hunter2"),
        "32ca611728fb32a71e283e027f71a7efa79530b927c542481d9ab44157fb7105"
    );
}

#[test]
fn legacy_hash_deterministic() {
    assert_eq!(generate_nintendo_hash(1, "pw"), generate_nintendo_hash(1, "pw"));
}

#[test]
fn legacy_hash_pid_sensitive() {
    assert_ne!(generate_nintendo_hash(1, "pw"), generate_nintendo_hash(2, "pw"));
}

#[test]
fn legacy_hash_password_sensitive() {
    assert_ne!(generate_nintendo_hash(1, "pw"), generate_nintendo_hash(1, "pw2"));
}

#[test]
fn password_round_trip() {
    let stored = generate_password(42, "hunter2").unwrap();
    assert_eq!(verify_cleartext(&stored, 42, "hunter2"), Some(true));
}

#[test]
fn password_rejects_wrong_cleartext() {
    let stored = generate_password(42, "hunter2").unwrap();
    assert_eq!(verify_cleartext(&stored, 42, "hunter3"), Some(false));
}

#[test]
fn password_rejects_wrong_pid() {
    let stored = generate_password(42, "hunter2").unwrap();
    assert_eq!(verify_cleartext(&stored, 43, "hunter2"), Some(false));
}

#[test]
fn malformed_stored_hash_is_failure_not_crash() {
    assert_eq!(verify_cleartext("definitely-not-bcrypt", 42, "hunter2"), None);
    assert_eq!(verify_cleartext("", 42, "hunter2"), None);
}

#[test]
fn stored_hash_is_self_describing() {
    let stored = generate_password(7, "pw").unwrap();
    assert!(stored.starts_with("$2"));
}
