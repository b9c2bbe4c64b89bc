use bullrs::active::{MoveToActive, MoveToActiveOk};
use bullrs::commands::{MoveStalledJobsToWait, RemoveJobScheduler, UpdateProgess};
use bullrs::errors::{
    AddJobErr, AddJobSchedulerError, JobSchedulerError, MoveToActiveErr, MoveToFinishedErr,
    RemoveJobSchedulerError, UpdateProgressError,
};
use bullrs::finish::{default_finish_options, MoveToFinished};
use bullrs::ids::SchedulerId;
use bullrs::jobs::map_add_job_value;
use bullrs::name::QueueName;
use bullrs::options::{JobOptions, RateLimit};
use bullrs::reply::Reply;
use bullrs::scheduler::{Repeat, SchedulerTemplate, SchedulerWindow};
use bullrs::scheduler_store::{AddJobScheduler, GetJobScheduler, UpdateJobScheduler};
use bullrs::script::{InvokeLuaScript, Script, ScriptArg};
use bullrs::time::{Duration, Timestamp};

fn q() -> QueueName {
    QueueName::new("reports").unwrap()
}

fn bulk(s: &str) -> Reply {
    Reply::BulkString(s.as_bytes().to_vec())
}

fn move_to_active(n: &QueueName) -> MoveToActive<'_> {
    MoveToActive {
        queue: n,
        worker_id: "w",
        limiter: RateLimit {
            max: 0,
            window: Duration::from_millis(0),
        },
        lock_duration: Duration::from_secs(30),
        token: "w-0",
    }
}

#[test]
fn move_to_active_invocation_carries_token_and_time() {
    let n = q();
    let m = move_to_active(&n);
    let call = m.invocation_at(Timestamp::from_millis(1_234).unwrap());
    assert_eq!(call.script, Script::MoveToActive);
    assert_eq!(call.keys.len(), 11);
    assert_eq!(call.keys[0], "bull:reports:wait");
    assert_eq!(call.keys[9], "bull:reports:pc");
    assert!(matches!(call.args[1], ScriptArg::Int(1_234)));
    match &call.args[2] {
        ScriptArg::MoveToActiveOpts(o) => {
            assert_eq!(o.token, "w-0");
            assert_eq!(o.name, "w");
            assert_eq!(o.lock_duration, Duration::from_secs(30));
        }
        other => panic!("unexpected {other:?}"),
    }
}

#[test]
fn move_to_active_answers_are_read() {
    let n = q();
    let m = move_to_active(&n);
    match m.map_value((Reply::Int(0), String::new(), 500, 0)).unwrap() {
        MoveToActiveOk::Delay { delay } => assert_eq!(delay, Duration::from_millis(500)),
        other => panic!("unexpected {other:?}"),
    }
    match m.map_value((Reply::Int(0), String::new(), 0, 1_700_000_000_000)).unwrap() {
        MoveToActiveOk::WaitUntil { timestamp } => {
            assert_eq!(timestamp.timestamp_millis(), 1_700_000_000_000)
        }
        other => panic!("unexpected {other:?}"),
    }
    assert!(matches!(
        m.map_value((Reply::Int(0), String::new(), 0, 0)).unwrap(),
        MoveToActiveOk::NothingToDo
    ));
    let hash = Reply::Array(vec![bulk("name"), bulk("n"), bulk("data"), bulk("{}")]);
    match m.map_value((hash, "5".to_string(), 0, 0)).unwrap() {
        MoveToActiveOk::JobData { id, data } => {
            assert_eq!(id, "5");
            assert_eq!(data.len(), 2);
            assert_eq!(data[0], ("name".to_string(), "n".to_string()));
        }
        other => panic!("unexpected {other:?}"),
    }
}

#[test]
fn move_to_active_errors() {
    let n = q();
    let m = move_to_active(&n);
    assert!(matches!(
        m.map_value((Reply::Int(0), String::new(), 0, i64::MAX)),
        Err(MoveToActiveErr::BadTimestamp { ts: i64::MAX })
    ));
    assert!(matches!(
        m.map_value((Reply::Okay, String::new(), 0, 0)),
        Err(MoveToActiveErr::UnexpectedRedisValue { .. })
    ));
    assert!(matches!(
        m.map_value((Reply::Array(vec![Reply::BulkString(vec![0xff]), bulk("x")]), "1".into(), 0, 0)),
        Err(MoveToActiveErr::RedisStringInvalid(_))
    ));
    assert!(!m.output_is_expected(&(Reply::Int(0), String::new(), 5, 5)));
}

#[test]
fn finishing_a_job_chooses_the_target_set() {
    let n = q();
    let done = MoveToFinished {
        queue: &n,
        job_id: "4",
        timestamp: Timestamp::from_millis(99).unwrap(),
        result: Ok("{\"v\":1}"),
        options: default_finish_options("w-3", "w"),
        job_fields: None,
    };
    let call = done.generate_invocation().unwrap();
    assert_eq!(call.script, Script::MoveToFinished);
    assert_eq!(call.keys[10], "bull:reports:completed");
    assert_eq!(call.keys[11], "bull:reports:4");
    let texts: Vec<&str> = call
        .args
        .iter()
        .filter_map(|a| match a {
            ScriptArg::Text(s) => Some(s.as_str()),
            _ => None,
        })
        .collect();
    assert!(texts.contains(&"returnvalue"));
    assert!(texts.contains(&"completed"));
    assert!(texts.contains(&"{\"v\":1}"));
    let failed = MoveToFinished {
        result: Err("boom"),
        options: default_finish_options("w-3", "w"),
        ..done
    };
    let call = failed.generate_invocation().unwrap();
    assert_eq!(call.keys[10], "bull:reports:failed");
}

#[test]
fn finishing_a_job_reads_every_status_code() {
    let n = q();
    let f = MoveToFinished {
        queue: &n,
        job_id: "4",
        timestamp: Timestamp::from_millis(99).unwrap(),
        result: Err("x"),
        options: default_finish_options("t", "w"),
        job_fields: None,
    };
    assert!(f.map_value(0).is_ok());
    assert!(matches!(f.map_value(-1), Err(MoveToFinishedErr::MissingKey)));
    assert!(matches!(f.map_value(-2), Err(MoveToFinishedErr::MissingLock)));
    assert!(matches!(f.map_value(-3), Err(MoveToFinishedErr::JobNotActive)));
    assert!(matches!(f.map_value(-4), Err(MoveToFinishedErr::JobHasPendingChildren)));
    assert!(matches!(f.map_value(-6), Err(MoveToFinishedErr::LockNotOwned)));
    assert!(matches!(f.map_value(-9), Err(MoveToFinishedErr::JobHasFailedChildren)));
}

#[test]
fn default_finish_options_keep_everything() {
    let o = default_finish_options("tok", "worker");
    assert_eq!(o.lock_token, "tok");
    assert_eq!(o.keep.count, -1);
    assert_eq!(o.lock_duration, Duration::from_secs(30));
    assert_eq!(o.attempts, 99);
    assert_eq!(o.max_metrics_size, 10_000);
    assert_eq!(o.worker_name, "worker");
}

#[test]
fn removing_an_unknown_scheduler_is_reported() {
    let n = q();
    let id = SchedulerId::try_new("nightly").unwrap();
    let r = RemoveJobScheduler {
        queue: &n,
        scheduler_id: &id,
    };
    assert!(r.map_value(0).is_ok());
    assert!(matches!(r.map_value(1), Err(RemoveJobSchedulerError::NotFound)));
}

#[test]
fn progress_of_a_missing_job_is_reported() {
    let n = q();
    let u = UpdateProgess {
        queue: &n,
        job_id: "11",
        progress_bits: 50.0f32.to_bits(),
    };
    assert!(u.map_value(0).is_ok());
    match u.map_value(-1) {
        Err(UpdateProgressError::JobNotFound { job_id, .. }) => assert_eq!(job_id, "11"),
        other => panic!("unexpected {other:?}"),
    }
    let call = u.generate_invocation().unwrap();
    match call.args[1] {
        ScriptArg::Float32Bits(bits) => assert_eq!(f32::from_bits(bits), 50.0),
        ref other => panic!("unexpected {other:?}"),
    }
}

#[test]
fn stalled_check_passes_limits() {
    let n = q();
    let s = MoveStalledJobsToWait {
        queue: &n,
        max_stalled_before_failed: 2,
        timestamp: Timestamp::from_millis(5_000).unwrap(),
        max_duration: Duration::from_secs(30),
    };
    let call = s.generate_invocation().unwrap();
    assert_eq!(call.script, Script::MoveStalledJobsToWait);
    let ids = s.map_value(vec!["3".to_string()]).unwrap();
    assert_eq!(ids, vec!["3".to_string()]);
}

#[test]
fn missing_parent_is_its_own_error() {
    assert!(matches!(
        map_add_job_value(Reply::Int(-5)),
        Err(AddJobErr::MissingParentKey)
    ));
    assert!(matches!(
        map_add_job_value(Reply::Int(3)),
        Err(AddJobErr::RedisError(_))
    ));
}

fn add_scheduler<'a>(
    n: &'a QueueName,
    id: &'a SchedulerId,
    repeat: &'a Repeat,
    window: &'a SchedulerWindow,
    opts: &'a JobOptions,
) -> AddJobScheduler<'a> {
    AddJobScheduler {
        queue: n,
        scheduler_id: id,
        next_millis: 10_000,
        repeat,
        window,
        template: SchedulerTemplate {
            name: "tick",
            data_json: "{}",
            opts,
        },
        delayed_opts: opts,
        producer_key: None,
    }
}

#[test]
fn adding_a_scheduler_reads_refusals_and_next_job() {
    let n = q();
    let id = SchedulerId::try_new("tick").unwrap();
    let repeat = Repeat::Every {
        interval: Duration::from_secs(1),
        offset: None,
    };
    let window = SchedulerWindow::default();
    let opts = JobOptions::default();
    let a = add_scheduler(&n, &id, &repeat, &window, &opts);
    let call = a.invocation_at(77);
    assert_eq!(call.keys[0], "bull:reports:repeat");
    assert!(matches!(call.args[0], ScriptArg::Int(10_000)));
    assert!(matches!(call.args[6], ScriptArg::Int(77)));
    assert!(matches!(a.map_value(Reply::Int(-10)), Err(AddJobSchedulerError::JobIdCollision)));
    assert!(matches!(a.map_value(Reply::Int(-11)), Err(AddJobSchedulerError::JobSlotsBusy)));
    let ok = a
        .map_value(Reply::Array(vec![bulk("repeat:tick:10000"), Reply::Int(250)]))
        .unwrap();
    assert_eq!(ok.job_id, "repeat:tick:10000");
    assert_eq!(ok.delay, 250);
    assert!(matches!(a.map_value(Reply::Nil), Err(AddJobSchedulerError::RedisError(_))));
}

#[test]
fn updating_a_scheduler_reads_the_next_job_id() {
    let n = q();
    let opts = JobOptions::default();
    let u = UpdateJobScheduler {
        queue: &n,
        scheduler_id: "tick",
        next_millis: 5,
        delayed_data_json: "{}",
        delayed_opts: &opts,
        timestamp: 4,
        prefix: n.prefix(),
        producer_id: Some("9"),
    };
    assert_eq!(u.map_value(bulk("repeat:tick:5")).unwrap(), "repeat:tick:5");
    assert_eq!(u.map_value(Reply::Nil).unwrap(), "");
}

#[test]
fn reading_a_scheduler_hash() {
    let n = q();
    let id = SchedulerId::try_new("tick").unwrap();
    let g = GetJobScheduler {
        queue: &n,
        scheduler_id: &id,
    };
    let fields = Reply::Array(vec![
        bulk("name"),
        bulk("tick-job"),
        bulk("every"),
        bulk("60000"),
        bulk("offset"),
        bulk("-5"),
        bulk("limit"),
        bulk("10"),
        bulk("ic"),
        bulk("3"),
        bulk("endDate"),
        bulk("1700000000000"),
    ]);
    let info = g
        .map_value(Reply::Array(vec![fields, bulk("1700000060000")]))
        .unwrap()
        .unwrap();
    assert_eq!(info.id.as_ref(), "tick");
    assert_eq!(info.name.as_deref(), Some("tick-job"));
    match info.repeat {
        Some(Repeat::Every { interval, offset }) => {
            assert_eq!(interval, Duration::from_millis(60_000));
            assert_eq!(offset, Some(Duration::from_millis(0)));
        }
        other => panic!("unexpected {other:?}"),
    }
    assert_eq!(info.window.limit, Some(10));
    assert_eq!(info.window.end.map(|t| t.timestamp_millis()), Some(1_700_000_000_000));
    assert_eq!(info.iteration_count, Some(3));
    assert_eq!(info.next_fire.timestamp_millis(), 1_700_000_060_000);
}

#[test]
fn scheduler_with_pattern_and_unknown_zone_drops_the_zone() {
    let n = q();
    let id = SchedulerId::try_new("cron").unwrap();
    let g = GetJobScheduler {
        queue: &n,
        scheduler_id: &id,
    };
    let fields = Reply::Array(vec![
        bulk("pattern"),
        bulk("0 9 * * *"),
        bulk("tz"),
        bulk("Nowhere/Special"),
    ]);
    let info = g
        .map_value(Reply::Array(vec![fields, Reply::Int(5)]))
        .unwrap()
        .unwrap();
    match info.repeat {
        Some(Repeat::Cron { pattern, tz }) => {
            assert_eq!(pattern.as_str(), "0 9 * * *");
            assert!(tz.is_none());
        }
        other => panic!("unexpected {other:?}"),
    }
}

#[test]
fn scheduler_with_broken_pattern_is_an_error() {
    let n = q();
    let id = SchedulerId::try_new("cron").unwrap();
    let g = GetJobScheduler {
        queue: &n,
        scheduler_id: &id,
    };
    let fields = Reply::Array(vec![bulk("pattern"), bulk("not a pattern")]);
    match g.map_value(Reply::Array(vec![fields, Reply::Int(5)])) {
        Err(JobSchedulerError::CronError { pattern, .. }) => assert_eq!(pattern, "not a pattern"),
        other => panic!("unexpected {other:?}"),
    }
    assert!(g.map_value(Reply::Nil).unwrap().is_none());
}
