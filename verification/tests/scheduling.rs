use bullrs::ids::{scheduler_ids, JobId, JobIdError, SchedulerId, SchedulerIdError};
use bullrs::scheduler::{
    compute_cron_next_millis, compute_next_millis, CronNextError, CronPattern, Repeat,
    SchedulerInfo, SchedulerWindow, Timezone,
};
use bullrs::scheduler_store::{scheduler_next_fire, NextFireError};
use bullrs::time::{Duration, Timestamp};
use bullrs::wire::WireSchedulerOpts;
use chrono::TimeZone;

fn ts(ms: i64) -> Timestamp {
    Timestamp::from_millis(ms).unwrap()
}

fn utc_ms(y: i32, mo: u32, d: u32, h: u32, mi: u32, s: u32) -> i64 {
    chrono::Utc
        .with_ymd_and_hms(y, mo, d, h, mi, s)
        .unwrap()
        .timestamp_millis()
}

#[test]
fn scheduler_id_rejects_empty() {
    assert!(SchedulerId::try_new("").is_err());
    assert!(SchedulerId::try_new("   ").is_err());
}

#[test]
fn scheduler_id_rejects_colon() {
    assert!(SchedulerId::try_new("foo:bar").is_err());
}

#[test]
fn scheduler_id_trims_whitespace() {
    let id = SchedulerId::try_new("  daily  ").unwrap();
    assert_eq!(id.as_ref(), "daily");
}

#[test]
fn scheduler_id_accepts_dashes_and_dots() {
    assert!(SchedulerId::try_new("daily-report.v2").is_ok());
}

#[test]
fn scheduler_id_errors_name_the_broken_rule() {
    assert!(matches!(
        SchedulerId::try_new(" \t "),
        Err(SchedulerIdError::NotEmptyViolated)
    ));
    assert!(matches!(
        SchedulerId::try_new("a:b"),
        Err(SchedulerIdError::PredicateViolated)
    ));
}

#[test]
fn job_id_follows_the_same_rules() {
    assert_eq!(JobId::try_new(" job-1 ").unwrap().into_inner(), "job-1");
    assert!(matches!(JobId::try_new(""), Err(JobIdError::NotEmptyViolated)));
    assert!(matches!(JobId::try_new("x:y"), Err(JobIdError::PredicateViolated)));
}

#[test]
fn trimmed_id_trims_to_itself() {
    let id = SchedulerId::try_new("  nightly ").unwrap();
    let again = SchedulerId::try_new(id.as_ref()).unwrap();
    assert_eq!(again.as_ref(), id.as_ref());
}

#[test]
fn compute_next_millis_every_adds_interval() {
    let now = ts(1_000_000);
    let repeat = Repeat::Every {
        interval: Duration::from_millis(500),
        offset: None,
    };
    let next = compute_next_millis(&repeat, now).unwrap();
    assert_eq!(next, 1_000_500);
}

#[test]
fn compute_next_millis_every_ignores_offset_field() {
    let now = ts(0);
    let repeat = Repeat::Every {
        interval: Duration::from_secs(1),
        offset: Some(Duration::from_secs(123)),
    };
    let next = compute_next_millis(&repeat, now).unwrap();
    assert_eq!(next, 1_000);
}

#[test]
fn compute_cron_next_millis_advances_to_next_minute() {
    let now = ts(utc_ms(2026, 1, 1, 12, 34, 0));
    let next_ms =
        compute_cron_next_millis(&CronPattern::parse("* * * * *").unwrap(), None, now).unwrap();
    assert_eq!(next_ms, utc_ms(2026, 1, 1, 12, 35, 0));
}

#[test]
fn compute_cron_next_millis_supports_optional_seconds_field() {
    let now = ts(utc_ms(2026, 1, 1, 0, 0, 1));
    let next_ms =
        compute_cron_next_millis(&CronPattern::parse("*/2 * * * * *").unwrap(), None, now)
            .unwrap();
    assert_eq!(next_ms, utc_ms(2026, 1, 1, 0, 0, 2));
}

#[test]
fn compute_cron_next_millis_evaluates_in_tz() {
    let now = ts(utc_ms(2026, 1, 1, 0, 0, 0));
    let berlin = Timezone::parse("Europe/Berlin").unwrap();
    let next_ms = compute_cron_next_millis(
        &CronPattern::parse("0 9 * * *").unwrap(),
        Some(&berlin),
        now,
    )
    .unwrap();
    assert_eq!(next_ms, utc_ms(2026, 1, 1, 8, 0, 0));
}

#[test]
fn compute_next_millis_for_cron_uses_the_pattern() {
    let repeat = Repeat::Cron {
        pattern: CronPattern::parse("0 * * * *").unwrap(),
        tz: None,
    };
    let next = compute_next_millis(&repeat, ts(utc_ms(2026, 3, 1, 10, 15, 0))).unwrap();
    assert_eq!(next, utc_ms(2026, 3, 1, 11, 0, 0));
}

#[test]
fn cron_pattern_rejects_garbage() {
    assert!(CronPattern::parse("not a cron").is_err());
}

#[test]
fn unknown_time_zone_is_refused() {
    assert!(Timezone::parse("Mars/Olympus").is_none());
    assert_eq!(Timezone::parse("Europe/Berlin").unwrap().name(), "Europe/Berlin");
}

#[test]
fn every_repeat_sets_only_every_and_offset() {
    let repeat = Repeat::Every {
        interval: Duration::from_millis(500),
        offset: Some(Duration::from_millis(50)),
    };
    let opts = WireSchedulerOpts::from_domain("ticker", &repeat, &SchedulerWindow::default());
    assert_eq!(opts.every, Some(500));
    assert_eq!(opts.offset, Some(50));
    assert_eq!(opts.pattern, None);
    assert_eq!(opts.tz, None);
}

#[test]
fn cron_repeat_sets_pattern_and_tz_name() {
    let repeat = Repeat::Cron {
        pattern: CronPattern::parse("0 9 * * *").unwrap(),
        tz: Timezone::parse("Europe/Berlin"),
    };
    let opts = WireSchedulerOpts::from_domain("daily", &repeat, &SchedulerWindow::default());
    assert_eq!(opts.pattern.as_deref(), Some("0 9 * * *"));
    assert_eq!(opts.tz.as_deref(), Some("Europe/Berlin"));
    assert_eq!(opts.every, None);
    assert_eq!(opts.offset, None);
}

#[test]
fn name_is_taken_from_argument_not_repeat() {
    let repeat = Repeat::Every {
        interval: Duration::from_secs(1),
        offset: None,
    };
    let opts = WireSchedulerOpts::from_domain("custom-name", &repeat, &SchedulerWindow::default());
    assert_eq!(opts.name, "custom-name");
}

#[test]
fn window_dates_serialize_as_millisecond_timestamps() {
    let window = SchedulerWindow {
        start: Some(ts(1_700_000_000_000)),
        end: Some(ts(1_700_001_000_000)),
        limit: Some(5),
        immediately: None,
    };
    let opts = WireSchedulerOpts::from_domain(
        "x",
        &Repeat::Every {
            interval: Duration::from_secs(1),
            offset: None,
        },
        &window,
    );
    assert_eq!(opts.start_date, Some(1_700_000_000_000));
    assert_eq!(opts.end_date, Some(1_700_001_000_000));
    assert_eq!(opts.limit, Some(5));
}

#[test]
fn empty_window_yields_no_dates_or_limit() {
    let opts = WireSchedulerOpts::from_domain(
        "x",
        &Repeat::Every {
            interval: Duration::from_secs(1),
            offset: None,
        },
        &SchedulerWindow::default(),
    );
    assert_eq!(opts.start_date, None);
    assert_eq!(opts.end_date, None);
    assert_eq!(opts.limit, None);
}

fn info(repeat: Option<Repeat>, window: SchedulerWindow, iterations: Option<u64>) -> SchedulerInfo {
    SchedulerInfo {
        id: SchedulerId::try_new("s").unwrap(),
        name: None,
        repeat,
        window,
        iteration_count: iterations,
        next_fire: ts(0),
    }
}

#[test]
fn next_fire_of_interval_scheduler_is_just_after_now() {
    let i = info(
        Some(Repeat::Every {
            interval: Duration::from_secs(5),
            offset: None,
        }),
        SchedulerWindow::default(),
        None,
    );
    assert_eq!(scheduler_next_fire(&i, ts(10_000)).unwrap(), Some(10_001));
}

#[test]
fn next_fire_stops_after_window_end_and_at_limit() {
    let every = || Repeat::Every {
        interval: Duration::from_secs(5),
        offset: None,
    };
    let ended = SchedulerWindow {
        end: Some(ts(5_000)),
        ..SchedulerWindow::default()
    };
    assert_eq!(scheduler_next_fire(&info(Some(every()), ended, None), ts(10_000)).unwrap(), None);
    let limited = SchedulerWindow {
        limit: Some(3),
        ..SchedulerWindow::default()
    };
    assert_eq!(scheduler_next_fire(&info(Some(every()), limited, Some(3)), ts(10_000)).unwrap(), None);
    assert_eq!(
        scheduler_next_fire(&info(Some(every()), limited, Some(2)), ts(10_000)).unwrap(),
        Some(10_001)
    );
}

#[test]
fn next_fire_without_repeat_rule_is_an_error() {
    assert!(matches!(
        scheduler_next_fire(&info(None, SchedulerWindow::default(), None), ts(1)),
        Err(NextFireError::NoRepeatRule)
    ));
}

#[test]
fn next_fire_of_cron_scheduler_follows_pattern() {
    let i = info(
        Some(Repeat::Cron {
            pattern: CronPattern::parse("30 * * * *").unwrap(),
            tz: None,
        }),
        SchedulerWindow::default(),
        None,
    );
    assert_eq!(
        scheduler_next_fire(&i, ts(utc_ms(2026, 5, 5, 7, 0, 0))).unwrap(),
        Some(utc_ms(2026, 5, 5, 7, 30, 0))
    );
}

#[test]
fn cron_next_error_variants_are_distinct() {
    let e = CronNextError::Next("none".into());
    assert!(matches!(e, CronNextError::Next(_)));
    let p = CronNextError::Parse("bad".into());
    assert!(matches!(p, CronNextError::Parse(_)));
}

#[test]
fn listed_scheduler_ids_skip_invalid_ones() {
    let raw = vec![
        " daily ".to_string(),
        "bad:id".to_string(),
        "".to_string(),
        "hourly".to_string(),
    ];
    let ids: Vec<String> = scheduler_ids(&raw)
        .into_iter()
        .map(|i| i.into_inner())
        .collect();
    assert_eq!(ids, vec!["daily".to_string(), "hourly".to_string()]);
}

#[test]
fn cron_pattern_keeps_the_text_croner_keeps() {
    let p = CronPattern::parse("  0 9 * * mon ").unwrap();
    let direct: croner::Cron = "  0 9 * * mon ".parse().unwrap();
    assert_eq!(p.as_str(), direct.as_str());
}
