//! Timestamps: ISO 8601 parsing and formatting, Unix conversions, and the
//! parse error type.

use hello_discord::types::datetime::{
    Timestamp, TimestampParseError, TimestampParseErrorType,
};

#[test]
fn parse_with_microseconds() {
    let ts = Timestamp::parse("2020-02-02T02:02:02.020000+00:00");
    assert!(ts.is_ok());
    assert_eq!(ts.unwrap().as_str(), "2020-02-02T02:02:02.020000+00:00");
}

#[test]
fn parse_without_microseconds() {
    let ts = Timestamp::parse("2021-01-01T01:01:01+00:00");
    assert!(ts.is_ok());
}

#[test]
fn parse_too_short() {
    let ts = Timestamp::parse("2021-01-01");
    assert!(ts.is_err());
}

#[test]
fn parse_no_t_separator() {
    let ts = Timestamp::parse("2021-01-01 01:01:01+00:00");
    assert!(ts.is_err());
}

#[test]
fn display() {
    let ts = Timestamp::parse("2020-02-02T02:02:02.020000+00:00").unwrap();
    assert_eq!(ts.as_str(), "2020-02-02T02:02:02.020000+00:00");
    assert_eq!(ts.iso_8601().get().as_str(), "2020-02-02T02:02:02.020000+00:00");
}

#[test]
fn from_secs_and_back() {
    let ts = Timestamp::from_secs(1_580_608_922).unwrap();
    assert_eq!(ts.as_secs(), 1_580_608_922);
    // Verify the formatted string looks right
    assert!(ts.as_str().starts_with("2020-02-02T02:02:02"));
}

#[test]
fn from_micros_and_back() {
    let ts = Timestamp::from_micros(1_580_608_922_020_000).unwrap();
    assert_eq!(ts.as_micros(), 1_580_608_922_020_000);
    assert!(ts.as_str().contains(".020000"));
}

#[test]
fn parse_then_as_secs() {
    let ts = Timestamp::parse("2021-08-10T11:16:37.020000+00:00").unwrap();
    assert_eq!(ts.as_secs(), 1_628_594_197);
}

#[test]
fn parse_then_as_micros() {
    let ts = Timestamp::parse("2021-08-10T11:16:37.123456+00:00").unwrap();
    assert_eq!(ts.as_micros(), 1_628_594_197_123_456);
}

#[test]
fn from_secs_zero() {
    let ts = Timestamp::from_secs(0).unwrap();
    assert_eq!(ts.as_secs(), 0);
    assert!(ts.as_str().starts_with("1970-01-01T00:00:00"));
}

#[test]
fn from_secs_iso8601_format() {
    let ts = Timestamp::from_secs(1_580_608_922).unwrap();
    assert_eq!(ts.iso_8601().get().as_str(), "2020-02-02T02:02:02.000000+00:00");
}

#[test]
fn from_micros_iso8601_format() {
    let ts = Timestamp::from_micros(1_628_594_197_020_000).unwrap();
    assert_eq!(ts.iso_8601().get().as_str(), "2021-08-10T11:16:37.020000+00:00");
}

#[test]
fn from_raw_round_trips() {
    let ts = Timestamp::from_raw("2024-06-01T12:00:00+00:00");
    assert_eq!(ts.as_str(), "2024-06-01T12:00:00+00:00");
    assert_eq!(ts.into_string(), "2024-06-01T12:00:00+00:00");
}

#[test]
fn negative_seconds_format() {
    let ts = Timestamp::from_secs(-1).unwrap();
    assert_eq!(ts.as_str(), "1969-12-31T23:59:59.000000+00:00");
}

// ---------------------------------------------------------------------------
// Parse errors
// ---------------------------------------------------------------------------

#[test]
fn format_error_display() {
    let err = TimestampParseError::format_error();
    assert_eq!(err.message(), "provided value is not in an iso 8601 format");
}

#[test]
fn format_error_has_no_source() {
    let err = TimestampParseError::format_error();
    assert!(err.source().is_none());
    assert!(err.into_source().is_none());
}

#[test]
fn parsing_error_display() {
    let err = TimestampParseError::parsing("test".to_string());
    assert_eq!(err.message(), "timestamp parsing failed");
}

#[test]
fn into_parts_returns_kind_and_source() {
    let err = TimestampParseError::format_error();
    let (kind, source) = err.into_parts();
    assert!(matches!(kind, TimestampParseErrorType::Format));
    assert!(source.is_none());
}

#[test]
fn range_error_keeps_its_source() {
    let err = TimestampParseError::range("out of range".to_string());
    assert_eq!(err.message(), "value of a field is not in an acceptable range");
    assert_eq!(err.into_source().as_deref(), Some("out of range"));
}
