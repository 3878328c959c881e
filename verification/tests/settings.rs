use cdn::auth::{require_database, stored_token, verification_verdict};
use cdn::cli::{validate_mode, validate_node_id, Mode};
use cdn::config::{cache_enabled, cache_size, host_setting, max_counters, storage_dir_setting};
use cdn::errors::VerifyTokenFailure;
use cdn::text::{decimal_string, hex_string, last_dot_segment, str_equal};

#[test]
fn caching_is_on_unless_set_otherwise() {
    assert!(cache_enabled(None));
    assert!(cache_enabled(Some("true")));
    assert!(!cache_enabled(Some("false")));
    assert!(!cache_enabled(Some("TRUE")));
    assert!(!cache_enabled(Some("")));
}

#[test]
fn cache_size_reads_an_i64_or_defaults() {
    assert_eq!(cache_size(Some("123"), 5), 123);
    assert_eq!(cache_size(Some("-7"), 5), -7);
    assert_eq!(cache_size(Some("+8"), 5), 8);
    assert_eq!(cache_size(Some("abc"), 5), 5);
    assert_eq!(cache_size(Some(" 1"), 5), 5);
    assert_eq!(cache_size(Some("99999999999999999999"), 5), 5);
    assert_eq!(cache_size(Some("9223372036854775807"), 5), i64::MAX);
    assert_eq!(cache_size(None, 5), 5);
}

#[test]
fn cache_counters() {
    assert_eq!(max_counters(100), 1000);
    assert_eq!(max_counters(0), 0);
    assert_eq!(max_counters(-1), (-10i64) as usize);
}

#[test]
fn host_and_storage_defaults() {
    assert_eq!(host_setting(None), "https://cdn.ferris.chat");
    assert_eq!(host_setting(Some("https://x".to_string())), "https://x");
    assert_eq!(storage_dir_setting(None), "../../uploads");
    assert_eq!(storage_dir_setting(Some("/data".to_string())), "/data");
}

#[test]
fn modes() {
    assert_eq!(validate_mode("storage"), Ok(Mode::Storage));
    assert_eq!(validate_mode("server"), Ok(Mode::Server));
    assert_eq!(
        validate_mode("Server"),
        Err("Invalid mode, must be either storage or server".to_string())
    );
    assert_eq!(validate_mode(""), Err("Invalid mode, must be either storage or server".to_string()));
}

#[test]
fn node_ids() {
    assert_eq!(validate_node_id("42"), Ok(42));
    assert_eq!(validate_node_id("+42"), Ok(42));
    assert_eq!(validate_node_id("18446744073709551615"), Ok(u64::MAX));
    let bad = Err("Invalid node id, must be a valid number".to_string());
    assert_eq!(validate_node_id("18446744073709551616"), bad);
    assert_eq!(validate_node_id("-1"), bad);
    assert_eq!(validate_node_id("-0"), bad);
    assert_eq!(validate_node_id(""), bad);
    assert_eq!(validate_node_id("+"), bad);
}

#[test]
fn node_ids_written_in_urls_read_back() {
    for n in [0u64, 9, 10, 99, 100, 12345, u64::MAX] {
        assert_eq!(validate_node_id(&decimal_string(n)), Ok(n));
        assert_eq!(decimal_string(n), n.to_string());
    }
}

#[test]
fn parsing_follows_std() {
    for s in ["0", "-0", "+5", "-9223372036854775808", "9223372036854775808", "1_000", "", "-", "0x10"] {
        assert_eq!(cache_size(Some(s), 77), s.parse::<i64>().unwrap_or(77));
        assert_eq!(validate_node_id(s).ok(), s.parse::<u64>().ok());
    }
}

#[test]
fn hex_and_text_helpers() {
    assert_eq!(hex_string(&[0x00, 0xff, 0x1a, 0x09]), "00ff1a09");
    assert_eq!(hex_string(&[]), "");
    assert!(str_equal("abc", "abc"));
    assert!(!str_equal("abc", "abd"));
    assert!(!str_equal("abc", "ab"));
    assert_eq!(last_dot_segment("a.b.c"), "c");
}

#[test]
fn token_checks() {
    assert!(require_database(true).is_ok());
    assert!(matches!(require_database(false), Err(VerifyTokenFailure::MissingDatabase)));
    assert!(matches!(stored_token(Err("closed".to_string())), Err(VerifyTokenFailure::DbError(d)) if d == "closed"));
    assert!(matches!(stored_token(Ok(None)), Err(VerifyTokenFailure::InvalidToken)));
    assert_eq!(stored_token(Ok(Some("$argon2id$h".to_string()))).unwrap(), "$argon2id$h");
    assert!(verification_verdict(Ok(true)).is_ok());
    assert!(matches!(verification_verdict(Ok(false)), Err(VerifyTokenFailure::InvalidToken)));
    assert!(matches!(verification_verdict(Err("e".to_string())), Err(VerifyTokenFailure::VerifierError(d)) if d == "e"));
}
