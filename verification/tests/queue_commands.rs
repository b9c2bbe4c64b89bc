use bullrs::commands::{
    AddLog, AddLogOk, ExtendLocks, IsFinished, IsFinishedOk, Obliterate, ObliterateOk, Pause,
    PauseAction, RemoveJob,
};
use bullrs::errors::{AddLogError, ObliterateError, RemoveJobError};
use bullrs::jobs::{add_job_kind, map_add_job_value, AddJobKind, JobScheduling};
use bullrs::name::{InvalidQueueName, QueueName};
use bullrs::options::JobOptions;
use bullrs::reply::{extract_string, Reply};
use bullrs::script::{InvokeLuaScript, Script, ScriptArg};
use bullrs::time::Duration;

fn q() -> QueueName {
    QueueName::new("mails").unwrap()
}

fn text(a: &ScriptArg) -> &str {
    match a {
        ScriptArg::Text(s) => s.as_str(),
        other => panic!("not text: {other:?}"),
    }
}

#[test]
fn queue_name_is_trimmed() {
    let n = QueueName::new("  mails \t").unwrap();
    assert_eq!(n.as_str(), "mails");
}

#[test]
fn queue_name_refuses_colon_and_empty() {
    assert_eq!(QueueName::new("a:b").unwrap_err(), InvalidQueueName::Colon);
    assert_eq!(QueueName::new("   ").unwrap_err(), InvalidQueueName::Empty);
    assert_eq!(QueueName::new("").unwrap_err(), InvalidQueueName::Empty);
    assert!(InvalidQueueName::Colon.message().contains("colon"));
}

#[test]
fn queue_keys_follow_the_bullmq_layout() {
    let n = q();
    assert_eq!(n.prefix(), "bull:mails:");
    assert_eq!(n.base(), "bull:mails:");
    assert_eq!(n.wait(), "bull:mails:wait");
    assert_eq!(n.active(), "bull:mails:active");
    assert_eq!(n.completed(), "bull:mails:completed");
    assert_eq!(n.failed(), "bull:mails:failed");
    assert_eq!(n.delayed(), "bull:mails:delayed");
    assert_eq!(n.paused(), "bull:mails:paused");
    assert_eq!(n.prioritized(), "bull:mails:prioritized");
    assert_eq!(n.priority_counter(), "bull:mails:pc");
    assert_eq!(n.meta(), "bull:mails:meta");
    assert_eq!(n.marker(), "bull:mails:marker");
    assert_eq!(n.events(), "bull:mails:events");
    assert_eq!(n.stalled(), "bull:mails:stalled");
    assert_eq!(n.stalled_check(), "bull:mails:stalled-check");
    assert_eq!(n.limiter(), "bull:mails:limiter");
    assert_eq!(n.metrics(), "bull:mails:metrics");
    assert_eq!(n.id(), "bull:mails:id");
    assert_eq!(n.repeat(), "bull:mails:repeat");
    assert_eq!(n.job("7"), "bull:mails:7");
    assert_eq!(n.job_lock("7"), "bull:mails:7:lock");
    assert_eq!(n.job_logs("7"), "bull:mails:7:logs");
}

#[test]
fn keys_of_different_queues_differ() {
    let a = QueueName::new("a").unwrap();
    let b = QueueName::new("b").unwrap();
    assert_ne!(a.wait(), b.wait());
    assert_ne!(a.job("1"), b.job("1"));
}

#[test]
fn pause_moves_jobs_from_wait_to_paused() {
    let n = q();
    let call = Pause {
        queue: &n,
        action: PauseAction::Pause,
    }
    .generate_invocation()
    .unwrap();
    assert_eq!(call.script, Script::Pause);
    assert_eq!(call.keys[0], "bull:mails:wait");
    assert_eq!(call.keys[1], "bull:mails:paused");
    assert_eq!(call.keys.len(), 7);
    assert_eq!(text(&call.args[0]), "paused");
}

#[test]
fn resume_moves_jobs_back() {
    let n = q();
    let call = Pause {
        queue: &n,
        action: PauseAction::Resume,
    }
    .generate_invocation()
    .unwrap();
    assert_eq!(call.keys[0], "bull:mails:paused");
    assert_eq!(call.keys[1], "bull:mails:wait");
    assert_eq!(text(&call.args[0]), "resumed");
}

#[test]
fn obliterate_reads_every_status_code() {
    let n = q();
    let ob = Obliterate {
        queue: &n,
        batch_size: 1000,
        force: true,
    };
    let call = ob.generate_invocation().unwrap();
    assert_eq!(call.keys, vec!["bull:mails:meta".to_string(), "bull:mails:".to_string()]);
    assert!(matches!(call.args[0], ScriptArg::UInt(1000)));
    assert_eq!(text(&call.args[1]), "force");
    assert_eq!(ob.map_value(0).unwrap(), ObliterateOk::Obliterated);
    assert_eq!(ob.map_value(1).unwrap(), ObliterateOk::Progress);
    assert!(matches!(ob.map_value(-1), Err(ObliterateError::NotPaused)));
    assert!(matches!(ob.map_value(-2), Err(ObliterateError::ActiveJobs)));
    assert!(ob.output_is_expected(&-2));
    assert!(!ob.output_is_expected(&5));
}

#[test]
fn remove_job_reads_every_status_code() {
    let n = q();
    let rj = RemoveJob {
        queue: &n,
        job_id: "9",
        remove_children: true,
    };
    assert!(rj.map_value(1).is_ok());
    assert!(matches!(rj.map_value(0), Err(RemoveJobError::JobLocked)));
    assert!(matches!(rj.map_value(-8), Err(RemoveJobError::IsSchedulerJob)));
}

#[test]
fn add_log_counts_or_reports_missing_job() {
    let n = q();
    let al = AddLog {
        queue: &n,
        job_id: "3",
        log_line: "hello",
        keep_logs: None,
    };
    assert_eq!(al.map_value(4).unwrap(), AddLogOk { new_count: 4 });
    match al.map_value(-1) {
        Err(AddLogError::JobNotFound { job_id, queue_name }) => {
            assert_eq!(job_id, "3");
            assert_eq!(queue_name.as_str(), "mails");
        }
        other => panic!("unexpected {other:?}"),
    }
}

#[test]
fn is_finished_reads_status_and_value() {
    let n = q();
    let f = IsFinished {
        queue: &n,
        job_id: "5",
    };
    let call = f.generate_invocation().unwrap();
    assert_eq!(call.keys[2], "bull:mails:5");
    let done = Reply::Array(vec![Reply::Int(1), Reply::BulkString(b"\"ok\"".to_vec())]);
    assert_eq!(f.map_value(done).unwrap(), IsFinishedOk::Completed("\"ok\"".into()));
    let failed = Reply::Array(vec![Reply::Int(2), Reply::BulkString(b"boom".to_vec())]);
    assert_eq!(f.map_value(failed).unwrap(), IsFinishedOk::Failed("boom".into()));
    assert_eq!(f.map_value(Reply::Int(0)).unwrap(), IsFinishedOk::NotFinished);
    assert_eq!(f.map_value(Reply::Int(-1)).unwrap(), IsFinishedOk::Missing);
}

#[test]
fn extend_locks_passes_tokens_and_ids() {
    let n = q();
    let ids = vec!["1".to_string(), "2".to_string()];
    let tokens = vec!["w-0".to_string(), "w-1".to_string()];
    let el = ExtendLocks {
        queue: &n,
        job_ids: &ids,
        tokens: &tokens,
        lock_duration: Duration::from_secs(30),
    };
    let call = el.generate_invocation().unwrap();
    assert_eq!(call.keys, vec!["bull:mails:stalled".to_string()]);
    match (&call.args[1], &call.args[2], &call.args[3]) {
        (ScriptArg::StringList(t), ScriptArg::StringList(j), ScriptArg::UInt(ms)) => {
            assert_eq!(t, &tokens);
            assert_eq!(j, &ids);
            assert_eq!(*ms, 30_000);
        }
        other => panic!("unexpected {other:?}"),
    }
    let failed = el
        .map_value(Reply::Array(vec![Reply::BulkString(b"2".to_vec())]))
        .unwrap();
    assert_eq!(failed, vec!["2".to_string()]);
}

#[test]
fn add_job_value_reads_the_new_id() {
    assert_eq!(map_add_job_value(Reply::BulkString(b"17".to_vec())).unwrap(), "17");
    assert_eq!(map_add_job_value(Reply::SimpleString("18".into())).unwrap(), "18");
    assert!(map_add_job_value(Reply::Int(-5)).is_err());
    assert!(map_add_job_value(Reply::Okay).is_err());
}

#[test]
fn invalid_utf8_in_new_id_is_replaced_not_refused() {
    let id = map_add_job_value(Reply::BulkString(vec![b'a', 0xff])).unwrap();
    assert_eq!(id, "a\u{FFFD}");
}

#[test]
fn extract_string_reads_only_valid_text() {
    assert_eq!(extract_string(&Reply::BulkString(b"hi".to_vec())).as_deref(), Some("hi"));
    assert_eq!(extract_string(&Reply::BulkString(vec![0xc3])), None);
    assert_eq!(extract_string(&Reply::Int(3)), None);
}

#[test]
fn delay_picks_the_delayed_script_before_priority() {
    let delayed = JobOptions {
        delay: Some(Duration::from_millis(10)),
        priority: Some(3),
        ..Default::default()
    };
    assert_eq!(add_job_kind(&delayed), AddJobKind::Delayed);
    let prioritized = JobOptions {
        priority: Some(3),
        ..Default::default()
    };
    assert_eq!(add_job_kind(&prioritized), AddJobKind::Prioritized);
    assert_eq!(add_job_kind(&JobOptions::default()), AddJobKind::Standard);
}

#[test]
fn job_scheduling_holds_name_data_and_priority() {
    let s = JobScheduling {
        name: "mail".to_string(),
        data: 5u8,
        priority: Some(2),
    };
    assert_eq!(s.name, "mail");
    assert_eq!(s.data, 5);
    assert_eq!(s.priority, Some(2));
}

#[test]
fn unexpected_add_job_answer_is_a_response_error_naming_the_value() {
    match map_add_job_value(Reply::Okay) {
        Err(bullrs::errors::AddJobErr::RedisError(e)) => {
            assert_eq!(
                e.kind(),
                redis::ErrorKind::Server(redis::ServerErrorKind::ResponseError)
            );
            assert!(e.detail().unwrap_or_default().contains("Response was ok"));
        }
        other => panic!("unexpected {other:?}"),
    }
}
