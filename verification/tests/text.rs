use consul_oxide::text::{
    format_decimal, has_prefix, join, parse_decimal_u64, push_decimal, same_name, same_str,
};

#[test]
fn decimal_round_trip() {
    assert_eq!(format_decimal(0), "0");
    assert_eq!(format_decimal(7), "7");
    assert_eq!(format_decimal(10), "10");
    assert_eq!(format_decimal(1234567890), "1234567890");
    assert_eq!(format_decimal(18446744073709551615), "18446744073709551615");
    for n in [0u64, 1, 9, 10, 99, 100, 4711, u64::MAX - 1, u64::MAX] {
        assert_eq!(parse_decimal_u64(&format_decimal(n)), Some(n));
    }
}

#[test]
fn decimal_is_appended_to_what_is_there() {
    let mut text = String::from("index=");
    push_decimal(&mut text, 305);
    assert_eq!(text, "index=305");
}

#[test]
fn decimal_parsing_takes_digits_only() {
    assert_eq!(parse_decimal_u64("18446744073709551615"), Some(u64::MAX));
    assert_eq!(parse_decimal_u64("18446744073709551616"), None);
    assert_eq!(parse_decimal_u64("99999999999999999999999"), None);
    assert_eq!(parse_decimal_u64(""), None);
    assert_eq!(parse_decimal_u64("12a"), None);
    assert_eq!(parse_decimal_u64("+12"), None);
    assert_eq!(parse_decimal_u64("-1"), None);
    assert_eq!(parse_decimal_u64(" 12"), None);
    assert_eq!(parse_decimal_u64("007"), Some(7));
    assert_eq!(parse_decimal_u64("0"), Some(0));
}

#[test]
fn names_are_compared_without_case() {
    assert!(same_name("X-Consul-Index", "x-consul-index"));
    assert!(same_name("X-CONSUL-INDEX", "x-consul-index"));
    assert!(same_name("", ""));
    assert!(!same_name("X-Consul-Index", "X-Consul-Inde"));
    assert!(!same_name("X-Consul-Index", "X_Consul_Index"));
    // '@' and '`' stand right before the letters and are not folded onto each other
    assert!(!same_name("@", "`"));
    assert!(!same_name("[", "{"));
}

#[test]
fn prefixes_and_equality() {
    assert!(has_prefix("config/db/host", "config/"));
    assert!(has_prefix("config/", "config/"));
    assert!(has_prefix("anything", ""));
    assert!(!has_prefix("config", "config/"));
    assert!(!has_prefix("conf/db", "config/"));
    assert!(same_str("lock/a", "lock/a"));
    assert!(!same_str("lock/a", "lock/b"));
    assert!(!same_str("lock/a", "lock/a/"));
    assert!(same_str("é", "é"));
    assert!(!same_str("e", "é"));
    assert_eq!(join("/v1/kv/", "a/b"), "/v1/kv/a/b");
}
