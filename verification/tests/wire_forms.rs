use bullrs::options::{Backoff, Jitter, JobOptions, ParentRef, RateLimit, Retain};
use bullrs::time::Duration;
use bullrs::wire::{
    WireBackoff, WireBackoffOptions, WireBackoffType, WireJobOptions, WireKeepJobs, WireParent,
    WireRateLimiter,
};

#[test]
fn backoff_fixed_round_trips() {
    let b = Backoff::Fixed {
        delay: Duration::from_millis(750),
    };
    let wire = WireBackoff::from(&b);
    match Backoff::from(wire) {
        Backoff::Fixed { delay } => assert_eq!(delay, Duration::from_millis(750)),
        other => panic!("expected Fixed, got {other:?}"),
    }
}

#[test]
fn backoff_exponential_round_trips_with_jitter() {
    let b = Backoff::Exponential {
        base: Duration::from_secs(2),
        jitter: Some(Jitter::from_bits(0.25f32.to_bits())),
    };
    let wire = WireBackoff::from(&b);
    match Backoff::from(wire) {
        Backoff::Exponential { base, jitter } => {
            assert_eq!(base, Duration::from_secs(2));
            assert_eq!(jitter.map(|j| f32::from_bits(j.to_bits())), Some(0.25));
        }
        other => panic!("expected Exponential, got {other:?}"),
    }
}

#[test]
fn backoff_exponential_round_trips_without_jitter() {
    let b = Backoff::Exponential {
        base: Duration::from_secs(1),
        jitter: None,
    };
    match Backoff::from(WireBackoff::from(&b)) {
        Backoff::Exponential { jitter, .. } => assert_eq!(jitter, None),
        _ => panic!(),
    }
}

#[test]
fn backoff_number_wire_form_decodes_as_fixed() {
    let b = Backoff::from(WireBackoff::Number(Duration::from_millis(500)));
    match b {
        Backoff::Fixed { delay } => assert_eq!(delay, Duration::from_millis(500)),
        _ => panic!(),
    }
}

#[test]
fn retain_forever_maps_to_bool_true() {
    match WireKeepJobs::from(&Retain::Forever) {
        WireKeepJobs::Bool(b) => assert!(b),
        _ => panic!(),
    }
}

#[test]
fn retain_drop_maps_to_bool_false() {
    match WireKeepJobs::from(&Retain::Drop) {
        WireKeepJobs::Bool(b) => assert!(!b),
        _ => panic!(),
    }
}

#[test]
fn retain_last_n_maps_to_count() {
    match WireKeepJobs::from(&Retain::LastN(42)) {
        WireKeepJobs::Count(n) => assert_eq!(n, 42),
        _ => panic!(),
    }
}

#[test]
fn retain_older_than_maps_to_config_age_only() {
    match WireKeepJobs::from(&Retain::OlderThan(Duration::from_secs(3600))) {
        WireKeepJobs::Config { age, count } => {
            assert_eq!(age, Some(Duration::from_secs(3600)));
            assert_eq!(count, None);
        }
        _ => panic!(),
    }
}

#[test]
fn retain_both_maps_to_config_with_count_and_age() {
    match WireKeepJobs::from(&Retain::Both {
        count: 10,
        age: Duration::from_secs(60),
    }) {
        WireKeepJobs::Config { age, count } => {
            assert_eq!(age, Some(Duration::from_secs(60)));
            assert_eq!(count, Some(10));
        }
        _ => panic!(),
    }
}

#[test]
fn keep_jobs_config_with_neither_age_nor_count_falls_back_to_forever() {
    match Retain::from(WireKeepJobs::Config {
        age: None,
        count: None,
    }) {
        Retain::Forever => {}
        _ => panic!(),
    }
}

#[test]
fn parent_ref_round_trips() {
    let p = ParentRef {
        id: "p1".into(),
        queue: "bull:q:wait".into(),
    };
    let wire = WireParent::from(&p);
    let back: ParentRef = wire.into();
    assert_eq!(back.id, "p1");
    assert_eq!(back.queue, "bull:q:wait");
}

#[test]
fn job_options_round_trips_through_wire() {
    let opts = JobOptions {
        attempts: Some(3),
        delay: Some(Duration::from_millis(200)),
        job_id: Some("job-7".into()),
        limit_logs: Some(99),
        lifo: Some(true),
        priority: Some(5),
        size_limit: Some(1024),
        stack_trace_limit: Some(8),
        continue_parent_on_failure: Some(true),
        deduplication: Some("dedup-key".into()),
        ..Default::default()
    };
    let back: JobOptions = WireJobOptions::from(&opts).into();
    assert_eq!(back.attempts, Some(3));
    assert_eq!(back.delay, Some(Duration::from_millis(200)));
    assert_eq!(back.job_id.as_deref(), Some("job-7"));
    assert_eq!(back.limit_logs, Some(99));
    assert_eq!(back.lifo, Some(true));
    assert_eq!(back.priority, Some(5));
    assert_eq!(back.size_limit, Some(1024));
    assert_eq!(back.stack_trace_limit, Some(8));
    assert_eq!(back.continue_parent_on_failure, Some(true));
    assert_eq!(back.deduplication.as_deref(), Some("dedup-key"));
}

#[test]
fn rate_limit_field_names_map_to_bullmq_wire_form() {
    let r = RateLimit {
        max: 100,
        window: Duration::from_secs(60),
    };
    let wire = WireRateLimiter::from(&r);
    assert_eq!(wire.max, 100);
    assert_eq!(wire.duration, Duration::from_secs(60));
}

#[test]
fn rate_limit_owned_conversion_matches_borrowed() {
    let r = RateLimit {
        max: 5,
        window: Duration::from_millis(250),
    };
    let from_owned = WireRateLimiter::from(r);
    let from_ref = WireRateLimiter::from(&RateLimit {
        max: 5,
        window: Duration::from_millis(250),
    });
    assert_eq!(from_owned.max, from_ref.max);
    assert_eq!(from_owned.duration, from_ref.duration);
}

#[test]
fn fixed_backoff_wire_form_names_its_type_and_delay() {
    let wire = WireBackoff::from(&Backoff::Fixed {
        delay: Duration::from_millis(300),
    });
    match wire {
        WireBackoff::BackoffOptions(WireBackoffOptions { delay, kind, jitter }) => {
            assert_eq!(delay, Some(Duration::from_millis(300)));
            assert_eq!(kind, WireBackoffType::Fixed);
            assert_eq!(jitter, None);
        }
        _ => panic!(),
    }
}

#[test]
fn backoff_options_without_delay_decode_as_zero_delay() {
    let b = Backoff::from(WireBackoff::BackoffOptions(WireBackoffOptions {
        delay: None,
        kind: WireBackoffType::Exponential,
        jitter: None,
    }));
    assert_eq!(
        b,
        Backoff::Exponential {
            base: Duration::from_millis(0),
            jitter: None
        }
    );
}

#[test]
fn retain_round_trips_for_every_variant() {
    for r in [
        Retain::Forever,
        Retain::Drop,
        Retain::LastN(3),
        Retain::OlderThan(Duration::from_millis(9)),
        Retain::Both {
            count: 2,
            age: Duration::from_millis(5),
        },
    ] {
        assert_eq!(Retain::from(WireKeepJobs::from(&r)), r);
    }
}

#[test]
fn keep_jobs_config_with_only_count_reads_as_last_n() {
    assert_eq!(
        Retain::from(WireKeepJobs::Config {
            age: None,
            count: Some(4)
        }),
        Retain::LastN(4)
    );
}

#[test]
fn default_job_options_are_all_unset() {
    let o = JobOptions::default();
    assert_eq!(o.attempts, None);
    assert_eq!(o.delay, None);
    assert_eq!(o.priority, None);
    assert_eq!(o.job_id, None);
    assert!(o.parent.is_none());
}
