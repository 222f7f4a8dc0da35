use account_core::account::{Date, Timestamp, User, UserTable};
use account_core::pid_distribution::{next_pid, PidAllocator};

fn test_user(pid: i32, username: &str) -> User {
    User {
        pid,
        username: username.to_string(),
        password: String::new(),
        birthdate: Date { year: 1990, month: 1, day: 1 },
        timezone: "Europe/Berlin".to_string(),
        email: "someone@example.com".to_string(),
        account_level: 0,
        email_verified_since: None,
        gender: "M".to_string(),
        country: "DE".to_string(),
        language: "en".to_string(),
        marketing_allowed: false,
        off_device_allowed: false,
        region: 1,
        mii_data: String::new(),
        creation_date: Timestamp { secs: 0 },
        updated: Timestamp { secs: 0 },
        nex_password: String::new(),
        verification_code: None,
    }
}

#[test]
fn draws_are_distinct_and_absent_from_table() {
    let table = UserTable::new();
    let mut alloc = PidAllocator { next: 1 };
    let mut seen = Vec::new();
    for _ in 0..16 {
        let pid = next_pid(&mut alloc, &table);
        assert!(!seen.contains(&pid));
        seen.push(pid);
    }
}

#[test]
fn taken_values_are_skipped() {
    let mut table = UserTable::new();
    table.insert(test_user(1, "a"));
    table.insert(test_user(2, "b"));
    table.insert(test_user(3, "c"));
    let mut alloc = PidAllocator { next: 1 };
    let pid = next_pid(&mut alloc, &table);
    assert_eq!(pid, 4);
    assert_eq!(alloc.next, 5);
}

#[test]
fn gap_is_found_between_taken_values() {
    let mut table = UserTable::new();
    table.insert(test_user(10, "a"));
    table.insert(test_user(12, "b"));
    let mut alloc = PidAllocator { next: 10 };
    assert_eq!(next_pid(&mut alloc, &table), 11);
    assert_eq!(next_pid(&mut alloc, &table), 13);
}
