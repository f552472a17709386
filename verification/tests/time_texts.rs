use kiro_accounts::timefmt::{
    expires_in_to_ts, expiry_text_at, is_expired, is_expired_at, iso_expiry_of, normalize_expires,
    iso_after_at, to_iso_expires, to_iso_expires_at,
};

// 2024-01-31 12:00:00 as seconds since 1970-01-01 00:00:00.
const NOON: i64 = 1706702400;

#[test]
fn normalize_expires_cases() {
    assert_eq!(normalize_expires(""), "");
    assert_eq!(normalize_expires("2024-01-31T12:34:56.789Z"), "2024-01-31 12:34:56");
    assert_eq!(normalize_expires("2024-01-31 12:34:56"), "2024-01-31 12:34:56");
    assert_eq!(normalize_expires("garbage"), "garbage");
}

#[test]
fn iso_expiry_of_known_patterns() {
    assert_eq!(iso_expiry_of("2024-01-31 12:34:56"), Some("2024-01-31T12:34:56.000Z".to_string()));
    assert_eq!(iso_expiry_of("2024/01/31 12:34:56"), Some("2024-01-31T12:34:56.000Z".to_string()));
    assert_eq!(iso_expiry_of("2024-01-31T12:34:56.789Z"), Some("2024-01-31T12:34:56.000Z".to_string()));
    assert_eq!(iso_expiry_of(""), None);
    assert_eq!(iso_expiry_of("tomorrow"), None);
    assert_eq!(to_iso_expires("2024/01/31 12:34:56"), Some("2024-01-31T12:34:56.000Z".to_string()));
    assert_eq!(to_iso_expires_at("tomorrow", (NOON, 0)), Some("2024-01-31T13:00:00.000Z".to_string()));
    assert_eq!(to_iso_expires_at("", (NOON, 0)), Some("2024-01-31T13:00:00.000Z".to_string()));
    assert_eq!(iso_after_at((NOON, 0), 7_776_000), Some("2024-04-30T12:00:00.000Z".to_string()));
    let fallback = to_iso_expires("tomorrow").expect("an hour from now is representable");
    assert_eq!(fallback.len(), 24);
    assert!(fallback.ends_with(".000Z"));
}

#[test]
fn iso_after_at_duration_limits() {
    assert_eq!(iso_after_at((NOON, 0), -3600), Some("2024-01-31T11:00:00.000Z".to_string()));
    assert_eq!(iso_after_at((NOON, 0), 9_223_372_036_854_776), None);
    assert_eq!(iso_after_at((NOON, 0), -9_223_372_036_854_776), None);
    assert_eq!(iso_after_at((NOON, 0), i64::MAX), None);
    // Within chrono's duration limit, but past its last supported date.
    assert_eq!(iso_after_at((NOON, 0), 9_000_000_000_000_000), None);
}

#[test]
fn is_expired_at_cases() {
    let now = (NOON, 0u32);
    assert!(is_expired_at("", now));
    assert!(is_expired_at("garbage", now));
    assert!(is_expired_at("2024-01-31 11:00:00", now));
    // Within the five-minute margin counts as expired.
    assert!(is_expired_at("2024-01-31 12:04:59", now));
    assert!(!is_expired_at("2024-01-31 12:05:00", now));
    assert!(!is_expired_at("2024/02/01 00:00:00", now));
    assert!(!is_expired_at("2024-01-31T13:00:00.000Z", now));
    assert!(is_expired_at("2024-01-31T12:04:59.999Z", now));
}

#[test]
fn is_expired_by_clock() {
    assert!(is_expired(""));
    assert!(is_expired("2000-01-01 00:00:00"));
    assert!(!is_expired("9999-01-01 00:00:00"));
}

#[test]
fn expiry_text_at_cases() {
    assert_eq!(expiry_text_at((0, 0), 0, 60), Some("1970-01-01 00:01:00".to_string()));
    assert_eq!(expiry_text_at((0, 0), 0, 0), Some("1970-01-01 01:00:00".to_string()));
    assert_eq!(expiry_text_at((0, 0), 0, -5), Some("1970-01-01 01:00:00".to_string()));
    assert_eq!(expiry_text_at((NOON, 0), 0, 3600), Some("2024-01-31 13:00:00".to_string()));
    // A local clock eight hours ahead of UTC.
    assert_eq!(expiry_text_at((NOON, 0), 28800, 3600), Some("2024-01-31 21:00:00".to_string()));
    assert_eq!(expiry_text_at((0, 0), 0, i64::MAX), None);
    assert_eq!(expiry_text_at((0, 0), 0, 9_000_000_000_000_000), None);
}

#[test]
fn clock_based_texts() {
    let t = expires_in_to_ts(3600).expect("an hour from now is representable");
    assert_eq!(t.len(), 19);
    assert_eq!(expires_in_to_ts(i64::MAX), None);
}

#[test]
fn expired_stays_expired_as_clock_moves() {
    let e = "2024-01-31 12:04:59";
    assert!(is_expired_at(e, (NOON, 0)));
    assert!(is_expired_at(e, (NOON + 1, 0)));
    assert!(is_expired_at(e, (NOON + 86400, 5)));
    assert!(!is_expired_at(e, (NOON - 3600, 0)));
}
