use bullrs::active::MoveToActiveOk;
use bullrs::bulk::{nil_places, put_back};
use bullrs::commands::IsFinishedOk;
use bullrs::errors::JobAwaitError;
use bullrs::events::QueueEvent;
use bullrs::flow::{flatten_flows, FlowJob, PreparedFlowJob};
use bullrs::join::{event_verdict, poll_verdict};
use bullrs::name::QueueName;
use bullrs::reply::Reply;
use bullrs::time::{Duration, Timestamp};
use bullrs::worker::{
    after_pull_error, next_running, plan_refresh, pool_size_for, pull_wait, sleep_outcome,
    PullErrorStep, PullState, RefreshStep, ShutdownSleep, SwitchEvent, WorkerArgs,
};

fn entry(pairs: &[(&str, &str)]) -> Vec<(String, Reply)> {
    pairs
        .iter()
        .map(|(k, v)| (k.to_string(), Reply::BulkString(v.as_bytes().to_vec())))
        .collect()
}

#[test]
fn completed_event_keeps_return_value_as_json() {
    let e = QueueEvent::parse(&entry(&[
        ("event", "completed"),
        ("jobId", "12"),
        ("returnvalue", "{\"ok\":true}"),
        ("prev", "active"),
    ]));
    assert_eq!(
        e,
        Some(QueueEvent::Completed {
            job_id: "12".into(),
            return_value: "{\"ok\":true}".into(),
            prev: Some("active".into()),
        })
    );
}

#[test]
fn events_without_job_id_are_dropped_unless_queue_wide() {
    assert_eq!(QueueEvent::parse(&entry(&[("event", "waiting")])), None);
    assert_eq!(
        QueueEvent::parse(&entry(&[("event", "drained")])),
        Some(QueueEvent::<String>::Drained)
    );
    assert_eq!(
        QueueEvent::parse(&entry(&[("event", "paused")])),
        Some(QueueEvent::<String>::Paused)
    );
}

#[test]
fn unknown_or_missing_event_kind_gives_nothing() {
    assert_eq!(QueueEvent::parse(&entry(&[("event", "exploded"), ("jobId", "1")])), None);
    assert_eq!(QueueEvent::parse(&entry(&[("jobId", "1")])), None);
}

#[test]
fn completed_event_needs_a_return_value() {
    assert_eq!(
        QueueEvent::parse(&entry(&[("event", "completed"), ("jobId", "1")])),
        None
    );
}

#[test]
fn failed_event_carries_reason() {
    let e = QueueEvent::parse(&entry(&[
        ("event", "failed"),
        ("jobId", "4"),
        ("failedReason", "boom"),
    ]));
    assert_eq!(
        e,
        Some(QueueEvent::Failed {
            job_id: "4".into(),
            failed_reason: Some("boom".into()),
            prev: None,
        })
    );
}

#[test]
fn later_stream_field_overrides_earlier() {
    let e = QueueEvent::parse(&entry(&[("event", "stalled"), ("jobId", "1"), ("jobId", "2")]));
    assert_eq!(e, Some(QueueEvent::Stalled { job_id: "2".into() }));
}

#[test]
fn decoded_return_value_replaces_json() {
    let e = QueueEvent::Completed {
        job_id: "1".to_string(),
        return_value: "5".to_string(),
        prev: None,
    };
    assert_eq!(
        e.with_return_value(Some(5u32)),
        Some(QueueEvent::Completed {
            job_id: "1".into(),
            return_value: 5u32,
            prev: None
        })
    );
    let bad = QueueEvent::Completed {
        job_id: "1".to_string(),
        return_value: "x".to_string(),
        prev: None,
    };
    assert_eq!(bad.with_return_value::<u32>(None), None);
    let other = QueueEvent::<String>::Resumed;
    assert_eq!(other.with_return_value::<u32>(None), Some(QueueEvent::Resumed));
}

#[test]
fn waiting_for_a_job_settles_on_its_own_events_only() {
    let done = QueueEvent::Completed {
        job_id: "7".to_string(),
        return_value: 42u32,
        prev: None,
    };
    assert!(matches!(event_verdict(done, "7"), Some(Ok(42))));
    let other = QueueEvent::Completed {
        job_id: "8".to_string(),
        return_value: 1u32,
        prev: None,
    };
    assert!(event_verdict(other, "7").is_none());
    let failed = QueueEvent::<u32>::Failed {
        job_id: "7".to_string(),
        failed_reason: None,
        prev: None,
    };
    match event_verdict(failed, "7") {
        Some(Err(JobAwaitError::JobFailed { reason })) => assert_eq!(reason, ""),
        other => panic!("unexpected {other:?}"),
    }
    assert!(event_verdict(QueueEvent::<u32>::Drained, "7").is_none());
}

#[test]
fn polling_settles_on_finished_states() {
    assert!(matches!(
        poll_verdict(IsFinishedOk::Completed("1".into())),
        Some(Ok(ref s)) if s == "1"
    ));
    assert!(matches!(
        poll_verdict(IsFinishedOk::Failed("bad".into())),
        Some(Err(JobAwaitError::JobFailed { ref reason })) if reason == "bad"
    ));
    assert!(matches!(
        poll_verdict(IsFinishedOk::Missing),
        Some(Err(JobAwaitError::JobNotFound))
    ));
    assert!(poll_verdict(IsFinishedOk::NotFinished).is_none());
}

#[test]
fn worker_defaults() {
    let a = WorkerArgs::default();
    assert_eq!(a.parallel_jobs, 32);
    assert_eq!(a.parallel_connections, 1);
    assert_eq!(a.max_stalled_before_failed, 1);
    assert_eq!(a.stalled_after, Duration::from_secs(30));
    assert_eq!(a.cooldown_after_error, Duration::from_secs(3));
}

#[test]
fn lock_tokens_count_up() {
    let mut p = PullState::new("w1".to_string());
    assert_eq!(p.next_token(), "w1-0");
    assert_eq!(p.next_token(), "w1-1");
    for _ in 0..8 {
        p.next_token();
    }
    assert_eq!(p.next_token(), "w1-10");
    assert_eq!(p.counter, 11);
}

#[test]
fn wait_after_pull_follows_the_answer() {
    let now = Timestamp::from_millis(10_000).unwrap();
    let job = MoveToActiveOk::JobData {
        id: "1".to_string(),
        data: (),
    };
    assert_eq!(pull_wait(&job, now), None);
    let delay = MoveToActiveOk::<()>::Delay {
        delay: Duration::from_millis(700),
    };
    assert_eq!(pull_wait(&delay, now), Some(Duration::from_millis(700)));
    let later = MoveToActiveOk::<()>::WaitUntil {
        timestamp: Timestamp::from_millis(12_500).unwrap(),
    };
    assert_eq!(pull_wait(&later, now), Some(Duration::from_millis(2_500)));
    let past = MoveToActiveOk::<()>::WaitUntil {
        timestamp: Timestamp::from_millis(9_000).unwrap(),
    };
    assert_eq!(pull_wait(&past, now), Some(Duration::from_millis(0)));
    assert_eq!(
        pull_wait(&MoveToActiveOk::<()>::NothingToDo, now),
        Some(Duration::from_secs(10))
    );
}

#[test]
fn refresher_extends_only_live_locks() {
    let entries = vec![
        ("1".to_string(), Some("w-0".to_string())),
        ("2".to_string(), None),
        ("3".to_string(), Some("w-2".to_string())),
    ];
    match plan_refresh(&entries, Duration::from_secs(30)) {
        RefreshStep::Extend { job_ids, tokens } => {
            assert_eq!(job_ids, vec!["1".to_string(), "3".to_string()]);
            assert_eq!(tokens, vec!["w-0".to_string(), "w-2".to_string()]);
        }
        other => panic!("unexpected {other:?}"),
    }
    let dead = vec![("1".to_string(), None)];
    match plan_refresh(&dead, Duration::from_secs(30)) {
        RefreshStep::Sleep(d) => assert_eq!(d, Duration::from_secs(15)),
        other => panic!("unexpected {other:?}"),
    }
}

#[test]
fn interrupted_sleep_reports_shutdown() {
    assert_eq!(sleep_outcome(false, false), ShutdownSleep::Shutdown);
    assert_eq!(sleep_outcome(true, true), ShutdownSleep::Shutdown);
    assert_eq!(sleep_outcome(true, false), ShutdownSleep::Slept);
}

#[test]
fn pool_grows_to_twice_the_connections() {
    assert_eq!(pool_size_for(4, 4), Some(8));
    assert_eq!(pool_size_for(8, 4), None);
    assert_eq!(pool_size_for(16, 1), None);
}

fn prepared(queue: &QueueName, name: &str) -> PreparedFlowJob {
    PreparedFlowJob::new(queue, name, "{}".to_string())
}

#[test]
fn flow_lists_children_before_parents() {
    let qn = QueueName::new("flows").unwrap();
    let leaf_a = FlowJob::new(prepared(&qn, "a"));
    let leaf_b = FlowJob::new(prepared(&qn, "b"));
    let mid = FlowJob::new(prepared(&qn, "mid")).with(leaf_a);
    let mut root = FlowJob::new(prepared(&qn, "root"));
    root.add(mid);
    root.add(leaf_b);
    let names: Vec<String> = root
        .jobs_children_first()
        .iter()
        .map(|j| j.job_name.clone())
        .collect();
    assert_eq!(names, vec!["a", "mid", "b", "root"]);
}

#[test]
fn several_flows_are_listed_one_after_the_other() {
    let qn = QueueName::new("flows").unwrap();
    let first = FlowJob::new(prepared(&qn, "p1")).with(FlowJob::new(prepared(&qn, "c1")));
    let second = FlowJob::new(prepared(&qn, "p2"));
    let flows = vec![first, second];
    let names: Vec<String> = flatten_flows(&flows)
        .iter()
        .map(|j| j.job_name.clone())
        .collect();
    assert_eq!(names, vec!["c1", "p1", "p2"]);
    let job = prepared(&qn, "x");
    assert_eq!(job.queue_name.as_str(), "flows");
    assert_eq!(job.data_json, "{}");
    assert_eq!(job.job_options.priority, None);
}

#[test]
fn bulk_retry_fills_only_the_nil_places() {
    let results = vec![
        Reply::BulkString(b"1".to_vec()),
        Reply::Nil,
        Reply::BulkString(b"3".to_vec()),
        Reply::Nil,
    ];
    let failed = nil_places(&results);
    assert_eq!(failed, vec![1, 3]);
    let retried = vec![
        Reply::BulkString(b"2".to_vec()),
        Reply::BulkString(b"4".to_vec()),
    ];
    let merged = put_back(results, &failed, retried);
    let ids: Vec<String> = merged
        .iter()
        .map(|r| match r {
            Reply::BulkString(b) => String::from_utf8(b.clone()).unwrap(),
            other => panic!("unexpected {other:?}"),
        })
        .collect();
    assert_eq!(ids, vec!["1", "2", "3", "4"]);
}

#[test]
fn bulk_retry_with_nothing_failed_changes_nothing() {
    let results = vec![Reply::SimpleString("a".into())];
    let failed = nil_places(&results);
    assert!(failed.is_empty());
    let merged = put_back(results, &failed, Vec::new());
    assert!(matches!(&merged[0], Reply::SimpleString(s) if s == "a"));
}

#[test]
fn pool_errors_stop_only_when_fatal_or_unheard() {
    let cool = Duration::from_secs(3);
    assert_eq!(after_pull_error(false, false, cool), PullErrorStep::CoolDown(cool));
    assert_eq!(after_pull_error(true, false, cool), PullErrorStep::Stop);
    assert_eq!(after_pull_error(false, true, cool), PullErrorStep::Stop);
}

#[test]
fn a_switch_once_off_stays_off() {
    let mut running = true;
    running = next_running(running, SwitchEvent::Observe);
    assert!(running);
    running = next_running(running, SwitchEvent::ShutDown);
    assert!(!running);
    for e in [SwitchEvent::Observe, SwitchEvent::ShutDown, SwitchEvent::Observe] {
        running = next_running(running, e);
        assert!(!running);
    }
}
