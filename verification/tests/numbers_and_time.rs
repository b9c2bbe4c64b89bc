use bullrs::number::{parse_i64, parse_u64};
use bullrs::time::{Timestamp, MAX_MILLIS, MIN_MILLIS};

#[test]
fn unsigned_parse_agrees_with_std() {
    for s in [
        "0", "42", "+7", "007", "", "+", "-1", " 1", "1 ", "1_000", "18446744073709551615",
        "18446744073709551616", "99999999999999999999999", "12a", "٣",
    ] {
        assert_eq!(parse_u64(s), s.parse::<u64>().ok(), "input {s:?}");
    }
}

#[test]
fn signed_parse_agrees_with_std() {
    for s in [
        "0", "-0", "-42", "+42", "-", "+", "", "9223372036854775807", "9223372036854775808",
        "-9223372036854775808", "-9223372036854775809", "--1", "+-1", "1e3",
    ] {
        assert_eq!(parse_i64(s), s.parse::<i64>().ok(), "input {s:?}");
    }
}

#[test]
fn timestamp_range_is_chrono_range() {
    for ms in [
        MIN_MILLIS - 1,
        MIN_MILLIS,
        0,
        1_700_000_000_000,
        MAX_MILLIS,
        MAX_MILLIS + 1,
        i64::MIN,
        i64::MAX,
    ] {
        assert_eq!(
            Timestamp::from_millis(ms).is_some(),
            chrono::DateTime::from_timestamp_millis(ms).is_some(),
            "instant {ms}"
        );
    }
    assert!(Timestamp::from_millis(MIN_MILLIS).is_some());
    assert!(Timestamp::from_millis(MAX_MILLIS + 1).is_none());
}

#[test]
fn now_is_a_valid_recent_instant() {
    let now = Timestamp::now().timestamp_millis();
    assert!(now > 1_600_000_000_000);
    assert_eq!(Timestamp::epoch().timestamp_millis(), 0);
}

#[test]
fn names_are_trimmed_of_exactly_the_unicode_whitespace() {
    for n in 0u32..=0x10FFFF {
        let Some(c) = char::from_u32(n) else {
            continue;
        };
        if c == ':' {
            continue;
        }
        let raw = format!("{c}a{c}");
        let name = bullrs::name::QueueName::new(&raw).unwrap();
        let expected = if c.is_whitespace() { "a".to_string() } else { raw.clone() };
        assert_eq!(name.as_str(), expected, "character U+{n:04X}");
    }
}
