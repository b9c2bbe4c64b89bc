//! Finishing jobs: `moveToFinished` moves a job to completed or failed.
use vstd::prelude::*;
use vstd::string::*;

use crate::commands::qk;
use crate::errors::MoveToFinishedErr;
use crate::name::QueueName;
use crate::options::RateLimit;
use crate::script::{is_text, texts, InvokeLuaScript, Script, ScriptArg, ScriptCall};
use crate::time::{Duration, Timestamp};
use crate::wire::{WireKeepJobsConfig, WireMoveToFinishedOpts, WireRateLimiter};

verus! {

/// Bound on how many finished jobs to retain.
#[derive(Debug, Clone, Copy, PartialEq, Eq, Structural)]
pub struct KeepCount {
    /// `-1` keeps all jobs.
    pub count: i64,
    /// Optional age bound.
    pub age: Option<Duration>,
}

/// Options for finishing a job. Cryptic BullMQ field names (`fpof`/`cpof`/`idof`/
/// `rdof`) are replaced with descriptive ones; the wire form is built at call time.
#[derive(Debug, PartialEq, Eq)]
pub struct FinishOptions {
    /// Lock token issued when the job was moved to active.
    pub lock_token: String,
    /// How long to keep finished jobs.
    pub keep: KeepCount,
    /// Lock duration to refresh on the job.
    pub lock_duration: Duration,
    /// Maximum number of attempts the job is allowed.
    pub attempts: usize,
    /// Maximum size of the metrics ring buffer.
    pub max_metrics_size: usize,
    /// Whether to fail the parent on this job's failure.
    pub fail_parent_on_fail: Option<bool>,
    /// Whether the parent should continue on this job's failure.
    pub continue_parent_on_failure: Option<bool>,
    /// Whether to ignore this dependency on failure.
    pub ignore_dependency_on_fail: Option<bool>,
    /// Whether to remove this dependency on failure.
    pub remove_dependency_on_fail: Option<bool>,
    /// Worker name (for events).
    pub worker_name: String,
    /// Optional rate limiter.
    pub limiter: Option<RateLimit>,
}

/// The wire form of the finish options.
pub open spec fn wire_finish_opts_of(o: FinishOptions) -> WireMoveToFinishedOpts {
    WireMoveToFinishedOpts {
        token: o.lock_token,
        keep_jobs: WireKeepJobsConfig { count: o.keep.count, age: o.keep.age },
        lock_duration: o.lock_duration,
        attempts: o.attempts,
        max_metrics_size: o.max_metrics_size,
        fail_parent_on_fail: o.fail_parent_on_fail,
        continue_parent_on_failure: o.continue_parent_on_failure,
        ignore_dependency_on_fail: o.ignore_dependency_on_fail,
        remove_dependency_on_fail: o.remove_dependency_on_fail,
        name: o.worker_name,
        limiter: match o.limiter {
            Some(l) => Some(WireRateLimiter { max: l.max, duration: l.window }),
            None => None,
        },
    }
}

/// The options handed to `moveToFinished` carry each finish option under its own
/// name: the lock token as `token`, the worker's name as `name`, and the retention,
/// lock duration, attempts, metrics size, parent flags and rate limit unchanged.
pub proof fn lemma_finish_opts_fieldwise(o: FinishOptions)
    ensures
        wire_finish_opts_of(o).token == o.lock_token,
        wire_finish_opts_of(o).name == o.worker_name,
        wire_finish_opts_of(o).keep_jobs.count == o.keep.count,
        wire_finish_opts_of(o).keep_jobs.age == o.keep.age,
        wire_finish_opts_of(o).lock_duration == o.lock_duration,
        wire_finish_opts_of(o).attempts == o.attempts,
        wire_finish_opts_of(o).max_metrics_size == o.max_metrics_size,
        wire_finish_opts_of(o).fail_parent_on_fail == o.fail_parent_on_fail,
        wire_finish_opts_of(o).continue_parent_on_failure == o.continue_parent_on_failure,
        wire_finish_opts_of(o).ignore_dependency_on_fail == o.ignore_dependency_on_fail,
        wire_finish_opts_of(o).remove_dependency_on_fail == o.remove_dependency_on_fail,
        o.limiter is None ==> wire_finish_opts_of(o).limiter is None,
        o.limiter matches Some(l) ==> (wire_finish_opts_of(o).limiter matches Some(w) && w.max
            == l.max && w.duration == l.window),
{
}

/// The wire form of the finish options.
pub fn wire_finish_opts(o: &FinishOptions) -> (w: WireMoveToFinishedOpts)
    ensures
        w == wire_finish_opts_of(*o),
{
    WireMoveToFinishedOpts {
        token: o.lock_token.clone(),
        keep_jobs: WireKeepJobsConfig { count: o.keep.count, age: o.keep.age },
        lock_duration: o.lock_duration,
        attempts: o.attempts,
        max_metrics_size: o.max_metrics_size,
        fail_parent_on_fail: o.fail_parent_on_fail,
        continue_parent_on_failure: o.continue_parent_on_failure,
        ignore_dependency_on_fail: o.ignore_dependency_on_fail,
        remove_dependency_on_fail: o.remove_dependency_on_fail,
        name: o.worker_name.clone(),
        limiter: match &o.limiter {
            Some(l) => Some(WireRateLimiter::from(l)),
            None => None,
        },
    }
}

/// A copy of a list of field updates.
pub fn clone_fields(f: &Option<Vec<(String, String)>>) -> (r: Option<Vec<(String, String)>>)
    ensures
        match (r, *f) {
            (Some(a), Some(b)) => a@ == b@,
            (None, None) => true,
            _ => false,
        },
{
    match f {
        None => None,
        Some(v) => {
            let mut out: Vec<(String, String)> = Vec::new();
            let mut i: usize = 0;
            while i < v.len()
                invariant
                    i <= v@.len(),
                    out@ == v@.take(i as int),
                decreases v@.len() - i,
            {
                out.push((v[i].0.clone(), v[i].1.clone()));
                assert(out@ =~= v@.take(i + 1));
                i = i + 1;
            }
            assert(v@.take(v@.len() as int) =~= v@);
            Some(out)
        },
    }
}

/// Move a job from active to completed (result `Ok`) or failed (result `Err`).
pub struct MoveToFinished<'a> {
    /// Name of the queue we are moving the job from.
    pub queue: &'a QueueName,
    /// ID of the job to move to finished status.
    pub job_id: &'a str,
    /// Current timestamp.
    pub timestamp: Timestamp,
    /// The return value as JSON (for completed jobs) or the failure reason (for
    /// failed jobs).
    pub result: Result<&'a str, &'a str>,
    /// Options for the operation.
    pub options: FinishOptions,
    /// Job fields to update.
    pub job_fields: Option<Vec<(String, String)>>,
}

/// The keys of `moveToFinished`; the eleventh is the set the job goes to.
pub open spec fn move_to_finished_keys(q: QueueName, job_id: Seq<char>, completed: bool) -> Seq<Seq<char>> {
    seq![
        qk(q, ":wait"@),
        qk(q, ":active"@),
        qk(q, ":prioritized"@),
        qk(q, ":events"@),
        qk(q, ":stalled"@),
        qk(q, ":limiter"@),
        qk(q, ":delayed"@),
        qk(q, ":paused"@),
        qk(q, ":meta"@),
        qk(q, ":pc"@),
        if completed { qk(q, ":completed"@) } else { qk(q, ":failed"@) },
        qk(q, ":"@ + job_id),
        qk(q, ":metrics"@),
        qk(q, ":marker"@),
    ]
}

/// Whether `n` is an exit code of `moveToFinished`.
pub open spec fn is_finish_code(n: i64) -> bool {
    n == 0 || n == -1 || n == -2 || n == -3 || n == -4 || n == -6 || n == -9
}

impl<'a> InvokeLuaScript for MoveToFinished<'a> {
    type RedisOutput = i64;
    type DomainOk = ();
    type DomainErr = MoveToFinishedErr;

    open spec fn expected_output(&self, value: &i64) -> bool {
        is_finish_code(*value)
    }

    fn output_is_expected(&self, value: &i64) -> (r: bool) {
        let n = *value;
        n == 0 || n == -1 || n == -2 || n == -3 || n == -4 || n == -6 || n == -9
    }

    fn generate_invocation(&self) -> (r: Result<ScriptCall, MoveToFinishedErr>)
        ensures
            r matches Ok(c) && {
                let completed = self.result is Ok;
                &&& c.script == Script::MoveToFinished
                &&& texts(c.keys@) == move_to_finished_keys(*self.queue, self.job_id@, completed)
                &&& c.args@.len() == 9
                &&& is_text(c.args@[0], self.job_id@)
                &&& c.args@[1] == ScriptArg::Int(self.timestamp@)
                &&& is_text(c.args@[2], if completed { "returnvalue"@ } else { "failedReason"@ })
                &&& is_text(
                    c.args@[3],
                    match self.result {
                        Ok(v) => v@,
                        Err(e) => e@,
                    },
                )
                &&& is_text(c.args@[4], if completed { "completed"@ } else { "failed"@ })
                &&& is_text(c.args@[5], "0"@)
                &&& is_text(c.args@[6], qk(*self.queue, ":"@))
                &&& c.args@[7] == ScriptArg::MoveToFinishedOpts(wire_finish_opts_of(self.options))
                &&& (c.args@[8] matches ScriptArg::JobFields(f) && match (f, self.job_fields) {
                    (Some(a), Some(b)) => a@ == b@,
                    (None, None) => true,
                    _ => false,
                })
            },
    {
        let q = self.queue;
        let completed = self.result.is_ok();
        let target_set = if completed { q.completed() } else { q.failed() };
        let keys = vec![
            q.wait(),
            q.active(),
            q.prioritized(),
            q.events(),
            q.stalled(),
            q.limiter(),
            q.delayed(),
            q.paused(),
            q.meta(),
            q.priority_counter(),
            target_set,
            q.job(self.job_id),
            q.metrics(),
            q.marker(),
        ];
        let field_name = if completed {
            String::from_str("returnvalue")
        } else {
            String::from_str("failedReason")
        };
        let value = match self.result {
            Ok(v) => String::from_str(v),
            Err(e) => String::from_str(e),
        };
        let target = if completed {
            String::from_str("completed")
        } else {
            String::from_str("failed")
        };
        let args = vec![
            ScriptArg::Text(String::from_str(self.job_id)),
            ScriptArg::Int(self.timestamp.timestamp_millis()),
            ScriptArg::Text(field_name),
            ScriptArg::Text(value),
            ScriptArg::Text(target),
            ScriptArg::Text(String::from_str("0")),
            ScriptArg::Text(q.prefix()),
            ScriptArg::MoveToFinishedOpts(wire_finish_opts(&self.options)),
            ScriptArg::JobFields(clone_fields(&self.job_fields)),
        ];
        assert(texts(keys@) =~= move_to_finished_keys(*self.queue, self.job_id@, completed));
        Ok(ScriptCall { script: Script::MoveToFinished, keys, args })
    }

    fn map_redis_error(&self, error: redis::RedisError) -> (r: MoveToFinishedErr)
        ensures
            r == MoveToFinishedErr::RedisError(error),
    {
        MoveToFinishedErr::RedisError(error)
    }

    fn map_pool_error(&self, error: deadpool_redis::PoolError) -> (r: MoveToFinishedErr)
        ensures
            r == MoveToFinishedErr::PoolError(error),
    {
        MoveToFinishedErr::PoolError(error)
    }

    fn map_value(&self, value: i64) -> (r: Result<(), MoveToFinishedErr>)
        ensures
            value == 0 ==> r is Ok,
            value == -1 ==> r matches Err(MoveToFinishedErr::MissingKey),
            value == -2 ==> r matches Err(MoveToFinishedErr::MissingLock),
            value == -3 ==> r matches Err(MoveToFinishedErr::JobNotActive),
            value == -4 ==> r matches Err(MoveToFinishedErr::JobHasPendingChildren),
            value == -6 ==> r matches Err(MoveToFinishedErr::LockNotOwned),
            value == -9 ==> r matches Err(MoveToFinishedErr::JobHasFailedChildren),
    {
        if value == 0 {
            Ok(())
        } else if value == -1 {
            Err(MoveToFinishedErr::MissingKey)
        } else if value == -2 {
            Err(MoveToFinishedErr::MissingLock)
        } else if value == -3 {
            Err(MoveToFinishedErr::JobNotActive)
        } else if value == -4 {
            Err(MoveToFinishedErr::JobHasPendingChildren)
        } else if value == -6 {
            Err(MoveToFinishedErr::LockNotOwned)
        } else {
            Err(MoveToFinishedErr::JobHasFailedChildren)
        }
    }
}

/// The finish options a worker uses: keep all finished jobs, a 30 s lock, up to 99
/// attempts, up to 10 000 metric points, no parent or limiter settings.
pub fn default_finish_options(lock_token: &str, worker_name: &str) -> (o: FinishOptions)
    ensures
        o.lock_token@ == lock_token@,
        o.keep == (KeepCount { count: -1i64, age: None }),
        o.lock_duration.ms == 30_000,
        o.attempts == 99,
        o.max_metrics_size == 10_000,
        o.fail_parent_on_fail is None,
        o.continue_parent_on_failure is None,
        o.ignore_dependency_on_fail is None,
        o.remove_dependency_on_fail is None,
        o.worker_name@ == worker_name@,
        o.limiter is None,
{
    FinishOptions {
        lock_token: String::from_str(lock_token),
        keep: KeepCount { count: -1, age: None },
        lock_duration: Duration::from_secs(30),
        attempts: 99,
        max_metrics_size: 10_000,
        fail_parent_on_fail: None,
        continue_parent_on_failure: None,
        ignore_dependency_on_fail: None,
        remove_dependency_on_fail: None,
        worker_name: String::from_str(worker_name),
        limiter: None,
    }
}

} // verus!
