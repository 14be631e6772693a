use datadog_cli::errors::DatadogError;
use datadog_cli::time::{
    format_timestamp, millis_text, parse_time, parse_time_at, parse_time_range, parse_time_range_at,
    parse_time_range_iso8601_at, timestamp_to_iso8601, TimeParams,
};
use std::time::{SystemTime, UNIX_EPOCH};

fn wall_clock() -> i64 {
    SystemTime::now().duration_since(UNIX_EPOCH).unwrap().as_secs() as i64
}

#[test]
fn test_parse_time_now() {
    let result = parse_time("now");
    assert!(result.is_ok());
    let timestamp = result.unwrap();
    assert!(timestamp > 0);
}

#[test]
fn test_parse_time_unix_timestamp() {
    let result = parse_time("1704067200");
    assert_eq!(result.unwrap(), 1704067200);
}

#[test]
fn test_parse_time_natural_language() {
    let result = parse_time("1 hour ago");
    assert!(result.is_ok());
    let now = wall_clock();
    let parsed = result.unwrap();
    assert!(parsed < now);
    assert!(parsed > now - 7200);
}

#[test]
fn test_parse_time_iso8601() {
    let result = parse_time("2024-01-01T00:00:00Z");
    assert_eq!(result.unwrap(), 1704067200);
}

#[test]
fn test_parse_time_invalid() {
    let result = parse_time("invalid time string");
    assert!(result.is_err());
}

#[test]
fn test_format_timestamp() {
    let formatted = format_timestamp(1704067200);
    assert!(formatted.contains("2024-01-01"));
    assert!(formatted.contains("00:00:00 UTC"));
}

#[test]
fn test_format_invalid_timestamp() {
    let formatted = format_timestamp(i64::MAX);
    assert!(formatted.contains("Invalid timestamp"));
}

#[test]
fn test_time_handler_parse_time() {
    let result = parse_time_range(Some("1609459200"), Some("1609462800"));
    assert!(result.is_ok());
    if let Ok(TimeParams::Timestamp { from, to }) = result {
        assert!(from > 0);
        assert!(to > from);
    }
}

#[test]
fn test_time_handler_defaults() {
    let result = parse_time_range(None, None);
    assert!(result.is_ok());
}

#[test]
fn hosts_test_time_handler_trait() {
    let result = parse_time_range(Some("1 hour ago"), Some("now"));
    assert!(result.is_ok());
}

#[test]
fn logs_test_time_handler_trait() {
    let result = parse_time_range(Some("1609459200"), Some("1609462800"));
    assert!(result.is_ok());
}

#[test]
fn spans_test_time_handler_trait() {
    let result = parse_time_range(Some("1 hour ago"), Some("now"));
    assert!(result.is_ok());
}

#[test]
fn now_is_within_a_second_of_the_clock() {
    let before = wall_clock();
    let t = parse_time("now").unwrap();
    let after = wall_clock();
    assert!(t >= before - 1 && t <= after + 1);
}

#[test]
fn now_word_ignores_case_and_spaces() {
    assert_eq!(parse_time_at("  NoW \n", 42), Ok(42));
    assert_eq!(parse_time_at("now", -5), Ok(-5));
}

#[test]
fn integers_are_epoch_seconds() {
    assert_eq!(parse_time_at("-86400", 0), Ok(-86400));
    assert_eq!(parse_time_at("+17", 0), Ok(17));
    assert_eq!(parse_time_at("9223372036854775807", 0), Ok(i64::MAX));
    assert_eq!(parse_time_at("-9223372036854775808", 0), Ok(i64::MIN));
}

#[test]
fn natural_phrase_is_relative_to_now() {
    assert_eq!(parse_time_at("1 hour ago", 1704067200), Ok(1704067200 - 3600));
}

#[test]
fn rfc3339_with_offset() {
    assert_eq!(parse_time_at("2024-01-01T01:00:00+01:00", 0), Ok(1704067200));
}

#[test]
fn unparsable_time_message() {
    assert_eq!(
        parse_time_at("not a time", 0),
        Err(DatadogError::DateParseError("Unable to parse time: 'not a time'".to_string()))
    );
}

#[test]
fn iso_text_of_an_instant() {
    assert_eq!(timestamp_to_iso8601(1704067200), Ok("2024-01-01T00:00:00+00:00".to_string()));
    assert_eq!(
        timestamp_to_iso8601(i64::MAX),
        Err(DatadogError::InvalidInput("Invalid timestamp".to_string()))
    );
}

#[test]
fn iso_round_trip_denotes_same_instant() {
    let t = parse_time("2024-01-01T00:00:00Z").unwrap();
    let text = timestamp_to_iso8601(t).unwrap();
    assert!(text.starts_with("2024-01-01T00:00:00"));
    assert_eq!(parse_time(&text).unwrap(), 1704067200);
}

#[test]
fn utc_text_exact() {
    assert_eq!(format_timestamp(1704067200), "2024-01-01 00:00:00 UTC");
    assert_eq!(format_timestamp(i64::MIN), "Invalid timestamp: -9223372036854775808");
}

#[test]
fn ranges_resolve_both_ends() {
    match parse_time_range_at(None, None, 1704067200) {
        Ok(TimeParams::Timestamp { from, to }) => {
            assert_eq!(from, 1704067200 - 3600);
            assert_eq!(to, 1704067200);
        }
        Err(e) => panic!("{:?}", e),
    }
    assert!(parse_time_range_at(Some("bogus"), None, 0).is_err());
}

#[test]
fn ranges_as_iso_text() {
    let (from, to) =
        parse_time_range_iso8601_at(Some("1704063600"), Some("now"), 1704067200).unwrap();
    assert_eq!(from, "2023-12-31T23:00:00+00:00");
    assert_eq!(to, "2024-01-01T00:00:00+00:00");
}

#[test]
fn milliseconds_text() {
    assert_eq!(millis_text(1704067200), Ok("1704067200000".to_string()));
    assert_eq!(millis_text(-1), Ok("-1000".to_string()));
    assert_eq!(millis_text(0), Ok("0".to_string()));
    assert_eq!(
        millis_text(i64::MAX),
        Err(DatadogError::InvalidInput("Invalid timestamp".to_string()))
    );
    assert_eq!(millis_text(9_223_372_036_854_775), Ok("9223372036854775000".to_string()));
}
