//! Configuration validation and the text utilities.

use auth_core::config::Config;
use auth_core::text::{format_i64, format_u64, parse_u64, trim_spaces};
use auth_core::ConfigError;

fn all_values() -> (Option<String>, Option<String>, Option<String>, Option<String>) {
    (
        Some("a process secret".to_owned()),
        Some("86400".to_owned()),
        Some("mongodb://localhost:27017".to_owned()),
        Some("app".to_owned()),
    )
}

#[test]
fn complete_values_yield_config() {
    let (secret, expiration, url, name) = all_values();
    let cfg = Config::from_values(secret, expiration, url, name).expect("valid configuration");
    assert_eq!(cfg.jwt_secret, "a process secret");
    assert_eq!(cfg.jwt_expiration, 86400);
    assert_eq!(cfg.db_url, "mongodb://localhost:27017");
    assert_eq!(cfg.db_name, "app");
}

#[test]
fn each_missing_variable_is_fatal() {
    for omit in 0..4 {
        let (mut secret, mut expiration, mut url, mut name) = all_values();
        match omit {
            0 => secret = None,
            1 => expiration = None,
            2 => url = None,
            _ => name = None,
        }
        let err = Config::from_values(secret, expiration, url, name).unwrap_err();
        assert_eq!(err, ConfigError::MissingVar);
    }
}

#[test]
fn unreadable_lifetime_is_a_parse_failure() {
    for bad in ["", "abc", "86400s", "-1", "1.5", "0", "99999999999999999999999"] {
        let (secret, _, url, name) = all_values();
        let err = Config::from_values(secret, Some(bad.to_owned()), url, name).unwrap_err();
        assert_eq!(err, ConfigError::ParseFailure, "for input {:?}", bad);
    }
}

#[test]
fn parse_u64_exact_values() {
    assert_eq!(parse_u64("0"), Some(0));
    assert_eq!(parse_u64("86400"), Some(86400));
    assert_eq!(parse_u64("007"), Some(7));
    assert_eq!(parse_u64("18446744073709551615"), Some(u64::MAX));
    assert_eq!(parse_u64("18446744073709551616"), None);
    assert_eq!(parse_u64(""), None);
    assert_eq!(parse_u64(" 1"), None);
    assert_eq!(parse_u64("1x"), None);
}

#[test]
fn format_exact_values() {
    assert_eq!(format_u64(0), "0");
    assert_eq!(format_u64(7), "7");
    assert_eq!(format_u64(86400), "86400");
    assert_eq!(format_u64(u64::MAX), "18446744073709551615");
    assert_eq!(format_i64(0), "0");
    assert_eq!(format_i64(-5), "-5");
    assert_eq!(format_i64(1_700_000_000_123), "1700000000123");
    assert_eq!(format_i64(i64::MIN), "-9223372036854775808");
}

#[test]
fn parse_inverts_format() {
    for n in [0u64, 1, 9, 10, 12345, 1_700_000_000_000] {
        assert_eq!(parse_u64(&format_u64(n)), Some(n));
    }
}

#[test]
fn trim_spaces_exact_values() {
    assert_eq!(trim_spaces("  a token  "), "a token");
    assert_eq!(trim_spaces("token"), "token");
    assert_eq!(trim_spaces("   "), "");
    assert_eq!(trim_spaces(""), "");
}
