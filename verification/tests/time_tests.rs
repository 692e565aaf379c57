use transit_rt::numbers::{i64_to_string, parse_u64, u64_to_string};
use transit_rt::time::{arrival_service_seconds, day_time_serializer, parse_day_time};
use chrono::TimeZone;

#[test]
fn day_time_parses_past_midnight() {
    let parsed = parse_day_time("25:30:15").expect("should parse");
    assert_eq!(parsed.0, "25:30:15");
    assert_eq!(parsed.1, 25 * 3600 + 30 * 60 + 15);
    assert_eq!(parsed.1, 91815);
}

#[test]
fn day_time_formats_past_midnight() {
    assert_eq!(day_time_serializer(91815), "25:30:15");
    assert_eq!(day_time_serializer(0), "00:00:00");
    assert_eq!(day_time_serializer(59), "00:00:59");
    assert_eq!(day_time_serializer(3600), "01:00:00");
    assert_eq!(day_time_serializer(86399), "23:59:59");
}

#[test]
fn day_time_round_trip_samples() {
    for s in [0u64, 1, 59, 60, 3599, 3600, 86399, 86400, 91815, 359999] {
        let text = day_time_serializer(s);
        let parsed = parse_day_time(&text).expect("formatted day-time should parse");
        assert_eq!(parsed.1, s);
        assert_eq!(parsed.0, text);
    }
}

#[test]
fn day_time_rejects_malformed() {
    assert!(parse_day_time("12:34").is_none());
    assert!(parse_day_time("aa:bb:cc").is_none());
    assert!(parse_day_time("1:2:3:4").is_none());
    assert!(parse_day_time("").is_none());
    assert!(parse_day_time("::").is_none());
    assert!(parse_day_time("-1:00:00").is_none());
}

#[test]
fn day_time_accepts_plus_signs_like_str_parse() {
    let parsed = parse_day_time("+1:+2:+3").expect("str::parse accepts a leading plus");
    assert_eq!(parsed.1, 3723);
}

#[test]
fn service_day_rolls_back_before_four() {
    let early = chrono_tz::America::New_York
        .with_ymd_and_hms(2024, 3, 15, 2, 30, 0)
        .unwrap()
        .timestamp();
    assert_eq!(arrival_service_seconds(early), Some(2 * 3600 + 30 * 60 + 86400));
    assert_eq!(arrival_service_seconds(early), Some(95400));

    let later = chrono_tz::America::New_York
        .with_ymd_and_hms(2024, 3, 15, 4, 30, 0)
        .unwrap()
        .timestamp();
    assert_eq!(arrival_service_seconds(later), Some(16200));
}

#[test]
fn numerals_format_and_parse() {
    assert_eq!(u64_to_string(0), "0");
    assert_eq!(u64_to_string(7), "7");
    assert_eq!(u64_to_string(1234567890), "1234567890");
    assert_eq!(u64_to_string(u64::MAX), "18446744073709551615");
    assert_eq!(i64_to_string(-5), "-5");
    assert_eq!(i64_to_string(0), "0");
    assert_eq!(i64_to_string(i64::MIN), "-9223372036854775808");
    assert_eq!(parse_u64("42"), Some(42));
    assert_eq!(parse_u64("+42"), Some(42));
    assert_eq!(parse_u64("18446744073709551615"), Some(u64::MAX));
    assert_eq!(parse_u64("18446744073709551616"), None);
    assert_eq!(parse_u64(""), None);
    assert_eq!(parse_u64("4x"), None);
}
