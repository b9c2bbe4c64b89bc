use bullrs::active::{active_job_from_fields, ActiveJob};
use bullrs::errors::RedisHashMapError;
use bullrs::fields::{
    extract_duration_ms_opt, extract_i64, extract_opt_i64, extract_opt_usize, extract_timestamp_ms,
    field, get_v, job_data_map,
};
use bullrs::options::JobOptions;
use bullrs::reply::Reply;
use bullrs::time::Duration;

fn base_hash() -> Vec<(String, String)> {
    vec![
        ("name".to_string(), "job-name".to_string()),
        ("data".to_string(), "{\"n\":7}".to_string()),
        ("timestamp".to_string(), "1700000000000".to_string()),
    ]
}

fn with(mut h: Vec<(String, String)>, key: &str, value: &str) -> Vec<(String, String)> {
    h.push((key.to_string(), value.to_string()));
    h
}

fn without(h: Vec<(String, String)>, key: &str) -> Vec<(String, String)> {
    h.into_iter().filter(|(k, _)| k != key).collect()
}

fn parse(h: &Vec<(String, String)>) -> Result<ActiveJob<String>, RedisHashMapError> {
    active_job_from_fields(h, None)
}

#[test]
fn parses_minimal_active_job() {
    let job = parse(&base_hash()).unwrap();
    assert_eq!(job.name, "job-name");
    let data: serde_json::Value = serde_json::from_str(&job.data).unwrap();
    assert_eq!(data.get("n").and_then(|v| v.as_i64()), Some(7));
    assert!(job.scheduled_by.is_none());
    assert!(job.options.is_none());
    assert_eq!(job.timestamp.timestamp_millis(), 1_700_000_000_000);
}

#[test]
fn missing_name_is_an_error() {
    let h = without(base_hash(), "name");
    assert!(parse(&h).is_err());
}

#[test]
fn missing_data_is_an_error() {
    let h = without(base_hash(), "data");
    assert!(parse(&h).is_err());
}

#[test]
fn rjk_field_is_parsed_as_scheduler_id() {
    let h = with(base_hash(), "rjk", "daily-report");
    let job = parse(&h).unwrap();
    assert_eq!(
        job.scheduled_by.as_ref().map(|s| s.as_ref()),
        Some("daily-report")
    );
}

#[test]
fn invalid_rjk_is_silently_dropped() {
    let h = with(base_hash(), "rjk", "has:colon");
    let job = parse(&h).unwrap();
    assert!(job.scheduled_by.is_none());
}

#[test]
fn delay_field_is_decoded_as_duration() {
    let h = with(base_hash(), "delay", "1500");
    let job = parse(&h).unwrap();
    assert_eq!(job.delay, Some(Duration::from_millis(1500)));
}

#[test]
fn negative_delay_is_clamped_to_zero() {
    let h = with(base_hash(), "delay", "-50");
    let job = parse(&h).unwrap();
    assert_eq!(job.delay, Some(Duration::from_millis(0)));
}

#[test]
fn priority_field_is_optional() {
    let job = parse(&base_hash()).unwrap();
    assert_eq!(job.priority, None);
    let h = with(base_hash(), "priority", "42");
    let job = parse(&h).unwrap();
    assert_eq!(job.priority, Some(42));
}

#[test]
fn missing_name_error_names_the_field() {
    match parse(&without(base_hash(), "name")) {
        Err(RedisHashMapError::Missing { key }) => assert_eq!(key, "name"),
        other => panic!("unexpected {other:?}"),
    }
}

#[test]
fn missing_timestamp_error_names_the_field() {
    match parse(&without(base_hash(), "timestamp")) {
        Err(RedisHashMapError::Missing { key }) => assert_eq!(key, "timestamp"),
        other => panic!("unexpected {other:?}"),
    }
}

#[test]
fn non_numeric_priority_is_a_decode_error() {
    let h = with(base_hash(), "priority", "high");
    assert!(matches!(parse(&h), Err(RedisHashMapError::Deserialize(_))));
}

#[test]
fn out_of_range_timestamp_is_reported() {
    let h = with(without(base_hash(), "timestamp"), "timestamp", "9223372036854775807");
    match parse(&h) {
        Err(RedisHashMapError::TimeStampOutOfRange { key, ts }) => {
            assert_eq!(key, "timestamp");
            assert_eq!(ts, i64::MAX);
        }
        other => panic!("unexpected {other:?}"),
    }
}

#[test]
fn options_given_are_kept_on_the_job() {
    let opts = JobOptions {
        attempts: Some(2),
        limit_logs: Some(5),
        ..Default::default()
    };
    let job = active_job_from_fields(&base_hash(), Some(opts)).unwrap();
    let kept = job.options.unwrap();
    assert_eq!(kept.attempts, Some(2));
    assert_eq!(kept.limit_logs, Some(5));
}

#[test]
fn later_field_overrides_earlier_one() {
    let h = with(base_hash(), "name", "renamed");
    assert_eq!(field(&h, "name").as_deref(), Some("renamed"));
    assert_eq!(get_v(&h, "name").unwrap(), "renamed");
    assert!(matches!(get_v(&h, "absent"), Err(RedisHashMapError::Missing { .. })));
}

#[test]
fn field_extractors_read_json_numbers() {
    let h = with(base_hash(), "ttl", "250");
    assert_eq!(
        extract_duration_ms_opt(&h, "ttl").unwrap(),
        Some(Duration::from_millis(250))
    );
    assert_eq!(extract_duration_ms_opt(&h, "nothing").unwrap(), None);
    assert_eq!(
        extract_timestamp_ms(&h, "timestamp").unwrap().timestamp_millis(),
        1_700_000_000_000
    );
}

#[test]
fn with_data_replaces_only_the_payload() {
    let job = parse(&with(base_hash(), "priority", "3")).unwrap();
    let decoded = job.with_data(7u32);
    assert_eq!(decoded.data, 7);
    assert_eq!(decoded.priority, Some(3));
    assert_eq!(decoded.name, "job-name");
}

#[test]
fn job_hash_reply_is_read_pair_by_pair() {
    let reply = Reply::Array(vec![
        Reply::BulkString(b"name".to_vec()),
        Reply::BulkString(b"n1".to_vec()),
        Reply::BulkString(b"data".to_vec()),
        Reply::BulkString(b"{}".to_vec()),
    ]);
    let fields = job_data_map(reply).unwrap();
    assert_eq!(
        fields,
        vec![
            ("name".to_string(), "n1".to_string()),
            ("data".to_string(), "{}".to_string())
        ]
    );
}

#[test]
fn job_hash_reply_with_odd_length_is_refused() {
    let reply = Reply::Array(vec![Reply::BulkString(b"name".to_vec())]);
    assert!(job_data_map(reply).is_err());
    let bad_utf8 = Reply::Array(vec![
        Reply::BulkString(vec![0xff]),
        Reply::BulkString(b"x".to_vec()),
    ]);
    assert!(job_data_map(bad_utf8).is_err());
}

#[test]
fn json_integer_fields_follow_the_json_number_grammar() {
    let one = |v: &str| vec![("n".to_string(), v.to_string())];
    assert_eq!(extract_i64(&one(" 42\n"), "n").unwrap(), 42);
    assert_eq!(
        extract_i64(&one("-9223372036854775808"), "n").unwrap(),
        i64::MIN
    );
    assert!(matches!(
        extract_i64(&one("-0"), "n"),
        Err(RedisHashMapError::Deserialize(_))
    ));
    assert!(matches!(
        extract_i64(&one("007"), "n"),
        Err(RedisHashMapError::Deserialize(_))
    ));
    assert!(matches!(
        extract_i64(&one("1.0"), "n"),
        Err(RedisHashMapError::Deserialize(_))
    ));
    assert!(matches!(
        extract_i64(&one("9223372036854775808"), "n"),
        Err(RedisHashMapError::Deserialize(_))
    ));
    assert_eq!(extract_opt_i64(&one(" null "), "n").unwrap(), None);
    assert_eq!(extract_opt_i64(&one("-3"), "n").unwrap(), Some(-3));
    assert_eq!(extract_opt_usize(&one("5"), "n").unwrap(), Some(5));
    assert!(matches!(
        extract_opt_usize(&one("-5"), "n"),
        Err(RedisHashMapError::Deserialize(_))
    ));
}
