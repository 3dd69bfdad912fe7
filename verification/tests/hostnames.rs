use rushmap_db::hostname::is_valid_hostname;
use rushmap_db::setup::should_copy_db;
use rushmap_db::sql::decimal_string;

fn valid(s: &str) -> bool {
    is_valid_hostname(&s.to_string())
}

#[test]
fn accepts_ordinary_host_names() {
    assert!(valid("example.com"));
    assert!(valid("localhost"));
    assert!(valid("a-b.c-d.example"));
    assert!(valid("192.168.1.1"));
    assert!(valid(&"a".repeat(63)));
}

#[test]
fn refuses_malformed_host_names() {
    assert!(!valid(""));
    assert!(!valid(".example.com"));
    assert!(!valid("example.com."));
    assert!(!valid("a..b"));
    assert!(!valid("-a.com"));
    assert!(!valid("a-.com"));
    assert!(!valid("a.-b"));
    assert!(!valid("a b"));
    assert!(!valid("a_b.com"));
    assert!(!valid(&"a".repeat(64)));
    assert!(!valid(&"a.".repeat(127)));
}

#[test]
fn decimal_matches_format() {
    for n in [0u128, 7, 10, 80, 443, 65535, 1234567890, u64::MAX as u128, u128::MAX] {
        assert_eq!(decimal_string(n), format!("{}", n));
    }
}

#[test]
fn database_copied_only_when_missing() {
    assert!(should_copy_db(true, false));
    assert!(!should_copy_db(true, true));
    assert!(!should_copy_db(false, false));
    assert!(!should_copy_db(false, true));
}
