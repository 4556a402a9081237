use loggen::config::{resolve_config, ConfigError};
use loggen::digits::{parse_i64, parse_u64, u64_to_string};

#[test]
fn renders_zero() {
    assert_eq!(u64_to_string(0), "0");
}

#[test]
fn renders_plain_number() {
    assert_eq!(u64_to_string(42), "42");
}

#[test]
fn renders_largest_word() {
    assert_eq!(u64_to_string(u64::MAX), "18446744073709551615");
}

#[test]
fn parses_plain_u64() {
    assert_eq!(parse_u64("42"), Some(42));
}

#[test]
fn parses_u64_with_plus() {
    assert_eq!(parse_u64("+7"), Some(7));
}

#[test]
fn parses_u64_limit() {
    assert_eq!(parse_u64("18446744073709551615"), Some(u64::MAX));
}

#[test]
fn rejects_u64_overflow() {
    assert_eq!(parse_u64("18446744073709551616"), None);
}

#[test]
fn rejects_empty_u64() {
    assert_eq!(parse_u64(""), None);
    assert_eq!(parse_u64("+"), None);
}

#[test]
fn rejects_non_numeric_u64() {
    assert_eq!(parse_u64("abc"), None);
    assert_eq!(parse_u64("1.5"), None);
    assert_eq!(parse_u64("-1"), None);
}

#[test]
fn parses_negative_i64() {
    assert_eq!(parse_i64("-5"), Some(-5));
}

#[test]
fn parses_positive_i64() {
    assert_eq!(parse_i64("8"), Some(8));
    assert_eq!(parse_i64("+8"), Some(8));
}

#[test]
fn parses_i64_limits() {
    assert_eq!(parse_i64("-9223372036854775808"), Some(i64::MIN));
    assert_eq!(parse_i64("9223372036854775807"), Some(i64::MAX));
}

#[test]
fn rejects_i64_overflow() {
    assert_eq!(parse_i64("9223372036854775808"), None);
    assert_eq!(parse_i64("-9223372036854775809"), None);
}

#[test]
fn rejects_bare_sign() {
    assert_eq!(parse_i64("-"), None);
    assert_eq!(parse_i64("+"), None);
}

#[test]
fn resolves_defaults() {
    let cfg = resolve_config("out", None, None, None, None, None, 5000).unwrap();
    assert_eq!(cfg.out_dir, "out");
    assert_eq!(cfg.lines, 100);
    assert_eq!(cfg.rotations, 0);
    assert_eq!(cfg.end_s, 5000);
    assert_eq!(cfg.begin_s, 5000 - 864000);
    assert_eq!(cfg.maxgap_ms, 300000);
}

#[test]
fn resolves_explicit_fields() {
    let cfg = resolve_config(
        "/tmp/logs",
        Some("7"),
        Some("2"),
        Some("-100"),
        Some("900"),
        Some("1234"),
        5000,
    )
    .unwrap();
    assert_eq!(cfg.lines, 7);
    assert_eq!(cfg.rotations, 2);
    assert_eq!(cfg.begin_s, -100);
    assert_eq!(cfg.end_s, 900);
    assert_eq!(cfg.maxgap_ms, 1234);
}

#[test]
fn default_begin_saturates_at_lowest_second() {
    let cfg = resolve_config("out", None, None, None, Some("-9223372036854775808"), None, 0)
        .unwrap();
    assert_eq!(cfg.begin_s, i64::MIN);
    assert_eq!(cfg.end_s, i64::MIN);
}

#[test]
fn resolve_now_with_explicit_end_ignores_clock() {
    let cfg = loggen::config::resolve_config_now("out", None, None, None, Some("100"), None)
        .unwrap();
    assert_eq!(cfg.end_s, 100);
    assert_eq!(cfg.begin_s, 100 - 864000);
}

#[test]
fn resolve_now_defaults_end_to_clock() {
    let cfg = loggen::config::resolve_config_now("out", None, None, None, None, None).unwrap();
    assert!(cfg.end_s > 0);
    assert_eq!(cfg.begin_s, cfg.end_s - 864000);
}

#[test]
fn reports_bad_lines() {
    let r = resolve_config("out", Some("x"), None, None, None, None, 0);
    assert_eq!(r.unwrap_err(), ConfigError::BadLines);
}

#[test]
fn reports_bad_rotations() {
    let r = resolve_config("out", None, Some("-1"), None, None, None, 0);
    assert_eq!(r.unwrap_err(), ConfigError::BadRotations);
}

#[test]
fn reports_bad_begin() {
    let r = resolve_config("out", None, None, Some("zz"), None, None, 0);
    assert_eq!(r.unwrap_err(), ConfigError::BadBegin);
}

#[test]
fn reports_bad_end() {
    let r = resolve_config("out", None, None, None, Some("1.5"), None, 0);
    assert_eq!(r.unwrap_err(), ConfigError::BadEnd);
}

#[test]
fn reports_bad_maxgap() {
    let r = resolve_config("out", None, None, None, None, Some("-3"), 0);
    assert_eq!(r.unwrap_err(), ConfigError::BadMaxgap);
}

#[test]
fn begin_after_end_is_a_configuration_error() {
    let r = resolve_config("out", None, None, Some("5"), Some("1"), None, 0);
    assert_eq!(r.unwrap_err(), ConfigError::BeginAfterEnd);
}

#[test]
fn lines_error_reported_before_begin_after_end() {
    let r = resolve_config("out", Some("x"), None, Some("5"), Some("1"), None, 0);
    assert_eq!(r.unwrap_err(), ConfigError::BadLines);
}

#[test]
fn error_messages_name_the_option() {
    assert_eq!(ConfigError::BadLines.message(), "Lines requires a number as argument");
    assert_eq!(ConfigError::BadBegin.message(), "Begin requires seconds as argument");
    assert_eq!(ConfigError::BadEnd.message(), "End requires seconds as argument");
    assert_eq!(
        ConfigError::BadMaxgap.message(),
        "Maximum gap must be a positive value in milliseconds"
    );
    assert_eq!(ConfigError::BeginAfterEnd.message(), "Begin cannot be after end.");
}
