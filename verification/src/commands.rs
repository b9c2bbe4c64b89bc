//! The queue's Lua scripts that manage jobs and queues: their invocations and
//! the reading of their answers.
use vstd::prelude::*;
use vstd::string::*;

use crate::errors::{
    AddLogError, IsFinishedError, MoveStalledToWaitError, ObliterateError, PauseResumeError,
    RemoveJobError, RemoveJobSchedulerError, UpdateProgressError,
};
use crate::ids::SchedulerId;
use crate::name::{queue_key, QueueName};
use crate::reply::{extract_string, reply_text, Reply};
use crate::script::{is_text, texts, InvokeLuaScript, Script, ScriptArg, ScriptCall};
use crate::text::{decimal, usize_to_string};
use crate::time::{Duration, Timestamp};

verus! {

/// The key `suffix` of the queue `q`.
pub open spec fn qk(q: QueueName, suffix: Seq<char>) -> Seq<char> {
    queue_key(q@, suffix)
}

/// A copy of a slice of strings.
pub fn clone_strings(v: &[String]) -> (r: Vec<String>)
    ensures
        r@ == v@,
{
    let mut r: Vec<String> = Vec::new();
    let mut i: usize = 0;
    while i < v.len()
        invariant
            i <= v@.len(),
            r@ == v@.take(i as int),
        decreases v@.len() - i,
    {
        r.push(v[i].clone());
        assert(r@ =~= v@.take(i + 1));
        i = i + 1;
    }
    assert(v@.take(v@.len() as int) =~= v@);
    r
}

// ---------- pause ----------

/// Whether a queue is paused or resumed.
#[derive(Debug, Clone, Copy, PartialEq, Eq, Structural)]
pub enum PauseAction {
    /// Stop handing out jobs.
    Pause,
    /// Hand out jobs again.
    Resume,
}

/// Pause or resume a queue: its waiting jobs move between `wait` and `paused`.
pub struct Pause<'a> {
    /// The queue.
    pub queue: &'a QueueName,
    /// Pause or resume.
    pub action: PauseAction,
}

/// The keys of `pause`: the list jobs move from, the list they move to, then the
/// other keys the script touches.
pub open spec fn pause_keys(q: QueueName, action: PauseAction) -> Seq<Seq<char>> {
    let (from, to) = match action {
        PauseAction::Pause => (qk(q, ":wait"@), qk(q, ":paused"@)),
        PauseAction::Resume => (qk(q, ":paused"@), qk(q, ":wait"@)),
    };
    seq![
        from,
        to,
        qk(q, ":meta"@),
        qk(q, ":prioritized"@),
        qk(q, ":events"@),
        qk(q, ":delayed"@),
        qk(q, ":marker"@),
    ]
}

impl<'a> InvokeLuaScript for Pause<'a> {
    type RedisOutput = ();
    type DomainOk = ();
    type DomainErr = PauseResumeError;

    open spec fn expected_output(&self, value: &()) -> bool {
        true
    }

    fn output_is_expected(&self, value: &()) -> (r: bool) {
        true
    }

    fn generate_invocation(&self) -> (r: Result<ScriptCall, PauseResumeError>)
        ensures
            r matches Ok(c) && {
                &&& c.script == Script::Pause
                &&& texts(c.keys@) == pause_keys(*self.queue, self.action)
                &&& c.args@.len() == 1
                &&& is_text(
                    c.args@[0],
                    match self.action {
                        PauseAction::Pause => "paused"@,
                        PauseAction::Resume => "resumed"@,
                    },
                )
            },
    {
        let q = self.queue;
        let (from, to) = match self.action {
            PauseAction::Pause => (q.wait(), q.paused()),
            PauseAction::Resume => (q.paused(), q.wait()),
        };
        let keys = vec![from, to, q.meta(), q.prioritized(), q.events(), q.delayed(), q.marker()];
        let arg = match self.action {
            PauseAction::Pause => String::from_str("paused"),
            PauseAction::Resume => String::from_str("resumed"),
        };
        let args = vec![ScriptArg::Text(arg)];
        assert(texts(keys@) =~= pause_keys(*self.queue, self.action));
        Ok(ScriptCall { script: Script::Pause, keys, args })
    }

    fn map_redis_error(&self, error: redis::RedisError) -> (r: PauseResumeError)
        ensures
            r == PauseResumeError::RedisError(error),
    {
        PauseResumeError::RedisError(error)
    }

    fn map_pool_error(&self, error: deadpool_redis::PoolError) -> (r: PauseResumeError)
        ensures
            r == PauseResumeError::PoolError(error),
    {
        PauseResumeError::PoolError(error)
    }

    fn map_value(&self, value: ()) -> (r: Result<(), PauseResumeError>)
        ensures
            r is Ok,
    {
        Ok(value)
    }
}

// ---------- obliterate ----------

/// Delete a batch of the keys of a queue.
pub struct Obliterate<'a> {
    /// The queue.
    pub queue: &'a QueueName,
    /// How many keys to delete in one go.
    pub batch_size: usize,
    /// Obliterate even when jobs are active.
    pub force: bool,
}

/// Progress of obliterating a queue.
#[derive(Debug, Clone, Copy, PartialEq, Eq, Structural)]
pub enum ObliterateOk {
    /// A batch of jobs have been purged.
    Progress,
    /// The last batch has been purged, the queue is obliterated.
    Obliterated,
}

impl<'a> InvokeLuaScript for Obliterate<'a> {
    type RedisOutput = i32;
    type DomainOk = ObliterateOk;
    type DomainErr = ObliterateError;

    open spec fn expected_output(&self, value: &i32) -> bool {
        *value == 0 || *value == 1 || *value == -1 || *value == -2
    }

    fn output_is_expected(&self, value: &i32) -> (r: bool) {
        *value == 0 || *value == 1 || *value == -1 || *value == -2
    }

    fn generate_invocation(&self) -> (r: Result<ScriptCall, ObliterateError>)
        ensures
            r matches Ok(c) && {
                &&& c.script == Script::Obliterate
                &&& texts(c.keys@) == seq![qk(*self.queue, ":meta"@), qk(*self.queue, ":"@)]
                &&& c.args@.len() == 2
                &&& c.args@[0] == ScriptArg::UInt(self.batch_size as u64)
                &&& is_text(c.args@[1], if self.force { "force"@ } else { ""@ })
            },
    {
        let keys = vec![self.queue.meta(), self.queue.base()];
        let force = if self.force { String::from_str("force") } else { String::from_str("") };
        let args = vec![ScriptArg::UInt(self.batch_size as u64), ScriptArg::Text(force)];
        assert(texts(keys@) =~= seq![qk(*self.queue, ":meta"@), qk(*self.queue, ":"@)]);
        Ok(ScriptCall { script: Script::Obliterate, keys, args })
    }

    fn map_redis_error(&self, error: redis::RedisError) -> (r: ObliterateError)
        ensures
            r == ObliterateError::RedisError(error),
    {
        ObliterateError::RedisError(error)
    }

    fn map_pool_error(&self, error: deadpool_redis::PoolError) -> (r: ObliterateError)
        ensures
            r == ObliterateError::PoolError(error),
    {
        ObliterateError::PoolError(error)
    }

    fn map_value(&self, value: i32) -> (r: Result<ObliterateOk, ObliterateError>)
        ensures
            value == 0 ==> r == Ok::<ObliterateOk, ObliterateError>(ObliterateOk::Obliterated),
            value == 1 ==> r == Ok::<ObliterateOk, ObliterateError>(ObliterateOk::Progress),
            value == -1 ==> r matches Err(ObliterateError::NotPaused),
            value == -2 ==> r matches Err(ObliterateError::ActiveJobs),
    {
        if value == 0 {
            Ok(ObliterateOk::Obliterated)
        } else if value == 1 {
            Ok(ObliterateOk::Progress)
        } else if value == -1 {
            Err(ObliterateError::NotPaused)
        } else {
            Err(ObliterateError::ActiveJobs)
        }
    }
}

// ---------- remove a job ----------

/// Remove a single job from any state it may be in.
///
/// An active job that is currently held by a worker cannot be removed.
pub struct RemoveJob<'a> {
    /// The queue.
    pub queue: &'a QueueName,
    /// The job.
    pub job_id: &'a str,
    /// When `true`, child jobs are recursively removed as well.
    pub remove_children: bool,
}

impl<'a> InvokeLuaScript for RemoveJob<'a> {
    type RedisOutput = i32;
    type DomainOk = ();
    type DomainErr = RemoveJobError;

    open spec fn expected_output(&self, value: &i32) -> bool {
        *value == 1 || *value == 0 || *value == -8
    }

    fn output_is_expected(&self, value: &i32) -> (r: bool) {
        *value == 1 || *value == 0 || *value == -8
    }

    fn generate_invocation(&self) -> (r: Result<ScriptCall, RemoveJobError>)
        ensures
            r matches Ok(c) && {
                &&& c.script == Script::RemoveJob
                &&& texts(c.keys@) == seq![
                    qk(*self.queue, ":"@ + self.job_id@),
                    qk(*self.queue, ":repeat"@),
                ]
                &&& c.args@.len() == 3
                &&& is_text(c.args@[0], self.job_id@)
                &&& is_text(c.args@[1], if self.remove_children { "1"@ } else { "0"@ })
                &&& is_text(c.args@[2], qk(*self.queue, ":"@))
            },
    {
        let keys = vec![self.queue.job(self.job_id), self.queue.repeat()];
        let children = if self.remove_children { String::from_str("1") } else { String::from_str("0") };
        let args = vec![
            ScriptArg::Text(String::from_str(self.job_id)),
            ScriptArg::Text(children),
            ScriptArg::Text(self.queue.prefix()),
        ];
        assert(texts(keys@) =~= seq![
            qk(*self.queue, ":"@ + self.job_id@),
            qk(*self.queue, ":repeat"@),
        ]);
        Ok(ScriptCall { script: Script::RemoveJob, keys, args })
    }

    fn map_redis_error(&self, error: redis::RedisError) -> (r: RemoveJobError)
        ensures
            r == RemoveJobError::RedisError(error),
    {
        RemoveJobError::RedisError(error)
    }

    fn map_pool_error(&self, error: deadpool_redis::PoolError) -> (r: RemoveJobError)
        ensures
            r == RemoveJobError::PoolError(error),
    {
        RemoveJobError::PoolError(error)
    }

    fn map_value(&self, value: i32) -> (r: Result<(), RemoveJobError>)
        ensures
            value == 1 ==> r is Ok,
            value == 0 ==> r matches Err(RemoveJobError::JobLocked),
            value == -8 ==> r matches Err(RemoveJobError::IsSchedulerJob),
    {
        if value == 1 {
            Ok(())
        } else if value == 0 {
            Err(RemoveJobError::JobLocked)
        } else {
            Err(RemoveJobError::IsSchedulerJob)
        }
    }
}

// ---------- remove a job scheduler ----------

/// Remove a job scheduler and its pending next job.
pub struct RemoveJobScheduler<'a> {
    /// The queue.
    pub queue: &'a QueueName,
    /// The scheduler.
    pub scheduler_id: &'a SchedulerId,
}

impl<'a> InvokeLuaScript for RemoveJobScheduler<'a> {
    type RedisOutput = i32;
    type DomainOk = ();
    type DomainErr = RemoveJobSchedulerError;

    open spec fn expected_output(&self, value: &i32) -> bool {
        *value == 0 || *value == 1
    }

    fn output_is_expected(&self, value: &i32) -> (r: bool) {
        *value == 0 || *value == 1
    }

    fn generate_invocation(&self) -> (r: Result<ScriptCall, RemoveJobSchedulerError>)
        ensures
            r matches Ok(c) && {
                &&& c.script == Script::RemoveJobScheduler
                &&& texts(c.keys@) == seq![
                    qk(*self.queue, ":repeat"@),
                    qk(*self.queue, ":delayed"@),
                    qk(*self.queue, ":events"@),
                ]
                &&& c.args@.len() == 2
                &&& is_text(c.args@[0], self.scheduler_id@)
                &&& is_text(c.args@[1], qk(*self.queue, ":"@))
            },
    {
        let keys = vec![self.queue.repeat(), self.queue.delayed(), self.queue.events()];
        let args = vec![
            ScriptArg::Text(String::from_str(self.scheduler_id.as_ref())),
            ScriptArg::Text(self.queue.prefix()),
        ];
        assert(texts(keys@) =~= seq![
            qk(*self.queue, ":repeat"@),
            qk(*self.queue, ":delayed"@),
            qk(*self.queue, ":events"@),
        ]);
        Ok(ScriptCall { script: Script::RemoveJobScheduler, keys, args })
    }

    fn map_redis_error(&self, error: redis::RedisError) -> (r: RemoveJobSchedulerError)
        ensures
            r == RemoveJobSchedulerError::RedisError(error),
    {
        RemoveJobSchedulerError::RedisError(error)
    }

    fn map_pool_error(&self, error: deadpool_redis::PoolError) -> (r: RemoveJobSchedulerError)
        ensures
            r == RemoveJobSchedulerError::PoolError(error),
    {
        RemoveJobSchedulerError::PoolError(error)
    }

    fn map_value(&self, value: i32) -> (r: Result<(), RemoveJobSchedulerError>)
        ensures
            value == 0 ==> r is Ok,
            value == 1 ==> r matches Err(RemoveJobSchedulerError::NotFound),
    {
        if value == 0 {
            Ok(())
        } else {
            Err(RemoveJobSchedulerError::NotFound)
        }
    }
}

// ---------- add a log line ----------

/// Append a log line to a job.
pub struct AddLog<'a> {
    /// The queue.
    pub queue: &'a QueueName,
    /// The job.
    pub job_id: &'a str,
    /// The line to append.
    pub log_line: &'a str,
    /// Keep only this many of the newest lines.
    pub keep_logs: Option<usize>,
}

/// A log line was added.
#[derive(Debug, Clone, Copy, PartialEq, Eq, Structural)]
pub struct AddLogOk {
    /// Number of log lines of the job now.
    pub new_count: usize,
}

impl<'a> InvokeLuaScript for AddLog<'a> {
    type RedisOutput = i64;
    type DomainOk = AddLogOk;
    type DomainErr = AddLogError;

    open spec fn expected_output(&self, value: &i64) -> bool {
        *value >= -1
    }

    fn output_is_expected(&self, value: &i64) -> (r: bool) {
        *value >= -1
    }

    fn generate_invocation(&self) -> (r: Result<ScriptCall, AddLogError>)
        ensures
            r matches Ok(c) && {
                &&& c.script == Script::AddLog
                &&& texts(c.keys@) == seq![
                    qk(*self.queue, ":"@ + self.job_id@),
                    qk(*self.queue, ":"@ + self.job_id@ + ":logs"@),
                ]
                &&& c.args@.len() == 3
                &&& is_text(c.args@[0], self.job_id@)
                &&& is_text(c.args@[1], self.log_line@)
                &&& is_text(
                    c.args@[2],
                    match self.keep_logs {
                        Some(n) => decimal(n as nat),
                        None => Seq::<char>::empty(),
                    },
                )
            },
    {
        let keys = vec![self.queue.job(self.job_id), self.queue.job_logs(self.job_id)];
        let keep_logs = match self.keep_logs {
            Some(n) => usize_to_string(n),
            None => String::new(),
        };
        let args = vec![
            ScriptArg::Text(String::from_str(self.job_id)),
            ScriptArg::Text(String::from_str(self.log_line)),
            ScriptArg::Text(keep_logs),
        ];
        assert(texts(keys@) =~= seq![
            qk(*self.queue, ":"@ + self.job_id@),
            qk(*self.queue, ":"@ + self.job_id@ + ":logs"@),
        ]);
        Ok(ScriptCall { script: Script::AddLog, keys, args })
    }

    fn map_redis_error(&self, error: redis::RedisError) -> (r: AddLogError)
        ensures
            r == AddLogError::RedisError(error),
    {
        AddLogError::RedisError(error)
    }

    fn map_pool_error(&self, error: deadpool_redis::PoolError) -> (r: AddLogError)
        ensures
            r == AddLogError::PoolError(error),
    {
        AddLogError::PoolError(error)
    }

    fn map_value(&self, value: i64) -> (r: Result<AddLogOk, AddLogError>)
        ensures
            value >= 0 ==> r == Ok::<AddLogOk, AddLogError>(AddLogOk { new_count: value as usize }),
            value == -1 ==> (r matches Err(AddLogError::JobNotFound { job_id, queue_name })
                && job_id@ == self.job_id@ && queue_name == *self.queue),
    {
        if value >= 0 {
            Ok(AddLogOk { new_count: value as usize })
        } else {
            Err(AddLogError::JobNotFound {
                job_id: String::from_str(self.job_id),
                queue_name: self.queue.clone(),
            })
        }
    }
}

// ---------- update progress ----------

/// Store the progress of a job and announce it.
pub struct UpdateProgess<'a> {
    /// The queue.
    pub queue: &'a QueueName,
    /// The job.
    pub job_id: &'a str,
    /// The progress in percent, as the IEEE-754 bits of an `f32` within 0 to 100.
    pub progress_bits: u32,
}

impl<'a> InvokeLuaScript for UpdateProgess<'a> {
    type RedisOutput = i32;
    type DomainOk = ();
    type DomainErr = UpdateProgressError;

    open spec fn expected_output(&self, value: &i32) -> bool {
        *value == 0 || *value == -1
    }

    fn output_is_expected(&self, value: &i32) -> (r: bool) {
        *value == 0 || *value == -1
    }

    fn generate_invocation(&self) -> (r: Result<ScriptCall, UpdateProgressError>)
        ensures
            r matches Ok(c) && {
                &&& c.script == Script::UpdateProgress
                &&& texts(c.keys@) == seq![
                    qk(*self.queue, ":"@ + self.job_id@),
                    qk(*self.queue, ":events"@),
                    qk(*self.queue, ":meta"@),
                ]
                &&& c.args@.len() == 2
                &&& is_text(c.args@[0], self.job_id@)
                &&& c.args@[1] == ScriptArg::Float32Bits(self.progress_bits)
            },
    {
        let keys = vec![self.queue.job(self.job_id), self.queue.events(), self.queue.meta()];
        let args = vec![
            ScriptArg::Text(String::from_str(self.job_id)),
            ScriptArg::Float32Bits(self.progress_bits),
        ];
        assert(texts(keys@) =~= seq![
            qk(*self.queue, ":"@ + self.job_id@),
            qk(*self.queue, ":events"@),
            qk(*self.queue, ":meta"@),
        ]);
        Ok(ScriptCall { script: Script::UpdateProgress, keys, args })
    }

    fn map_redis_error(&self, error: redis::RedisError) -> (r: UpdateProgressError)
        ensures
            r == UpdateProgressError::RedisError(error),
    {
        UpdateProgressError::RedisError(error)
    }

    fn map_pool_error(&self, error: deadpool_redis::PoolError) -> (r: UpdateProgressError)
        ensures
            r == UpdateProgressError::PoolError(error),
    {
        UpdateProgressError::PoolError(error)
    }

    fn map_value(&self, value: i32) -> (r: Result<(), UpdateProgressError>)
        ensures
            value == 0 ==> r is Ok,
            value == -1 ==> (r matches Err(UpdateProgressError::JobNotFound { job_id, queue_name })
                && job_id@ == self.job_id@ && queue_name == *self.queue),
    {
        if value == 0 {
            Ok(())
        } else {
            Err(UpdateProgressError::JobNotFound {
                job_id: String::from_str(self.job_id),
                queue_name: self.queue.clone(),
            })
        }
    }
}

// ---------- stalled jobs back to waiting ----------

/// Move stalled jobs (whose worker did not refresh the lock) back to waiting, or
/// to failed once they stalled too often.
pub struct MoveStalledJobsToWait<'a> {
    /// Name of the queue we are doing maintenance work (stalled jobs to waiting) for.
    pub queue: &'a QueueName,
    /// If a job stalls this often, mark it failed.
    pub max_stalled_before_failed: usize,
    /// Current timestamp.
    pub timestamp: Timestamp,
    /// How much time may pass without a lock refresh before a job counts as stalled.
    pub max_duration: Duration,
}

/// The keys of `moveStalledJobsToWait`.
pub open spec fn stalled_keys(q: QueueName) -> Seq<Seq<char>> {
    seq![
        qk(q, ":stalled"@),
        qk(q, ":wait"@),
        qk(q, ":active"@),
        qk(q, ":stalled-check"@),
        qk(q, ":meta"@),
        qk(q, ":paused"@),
        qk(q, ":marker"@),
        qk(q, ":events"@),
    ]
}

impl<'a> InvokeLuaScript for MoveStalledJobsToWait<'a> {
    type RedisOutput = Vec<String>;
    type DomainOk = Vec<String>;
    type DomainErr = MoveStalledToWaitError;

    open spec fn expected_output(&self, value: &Vec<String>) -> bool {
        true
    }

    fn output_is_expected(&self, value: &Vec<String>) -> (r: bool) {
        true
    }

    fn generate_invocation(&self) -> (r: Result<ScriptCall, MoveStalledToWaitError>)
        ensures
            r matches Ok(c) && {
                &&& c.script == Script::MoveStalledJobsToWait
                &&& texts(c.keys@) == stalled_keys(*self.queue)
                &&& c.args@.len() == 4
                &&& c.args@[0] == ScriptArg::UInt(self.max_stalled_before_failed as u64)
                &&& is_text(c.args@[1], qk(*self.queue, ":"@))
                &&& c.args@[2] == ScriptArg::Int(self.timestamp@)
                &&& c.args@[3] == ScriptArg::UInt(self.max_duration.ms)
            },
    {
        let q = self.queue;
        let keys = vec![
            q.stalled(),
            q.wait(),
            q.active(),
            q.stalled_check(),
            q.meta(),
            q.paused(),
            q.marker(),
            q.events(),
        ];
        let args = vec![
            ScriptArg::UInt(self.max_stalled_before_failed as u64),
            ScriptArg::Text(q.prefix()),
            ScriptArg::Int(self.timestamp.timestamp_millis()),
            ScriptArg::UInt(self.max_duration.as_millis()),
        ];
        assert(texts(keys@) =~= stalled_keys(*self.queue));
        Ok(ScriptCall { script: Script::MoveStalledJobsToWait, keys, args })
    }

    fn map_redis_error(&self, error: redis::RedisError) -> (r: MoveStalledToWaitError)
        ensures
            r == MoveStalledToWaitError::RedisError(error),
    {
        MoveStalledToWaitError::RedisError(error)
    }

    fn map_pool_error(&self, error: deadpool_redis::PoolError) -> (r: MoveStalledToWaitError)
        ensures
            r == MoveStalledToWaitError::PoolError(error),
    {
        MoveStalledToWaitError::PoolError(error)
    }

    fn map_value(&self, value: Vec<String>) -> (r: Result<Vec<String>, MoveStalledToWaitError>)
        ensures
            r == Ok::<Vec<String>, MoveStalledToWaitError>(value),
    {
        Ok(value)
    }
}

// ---------- is a job finished ----------

/// Whether a job has finished, and how.
pub struct IsFinished<'a> {
    /// The queue.
    pub queue: &'a QueueName,
    /// The job.
    pub job_id: &'a str,
}

/// State of a job as `isFinished` reports it.
#[derive(Debug, PartialEq, Eq)]
pub enum IsFinishedOk {
    /// Job is not yet finished.
    NotFinished,
    /// Job completed successfully with a return value (JSON).
    Completed(String),
    /// Job failed with a reason.
    Failed(String),
    /// Job key is missing.
    Missing,
}

/// Whether `n` is a status code of `isFinished`.
pub open spec fn is_finished_code(n: i64) -> bool {
    n == 0 || n == 1 || n == 2 || n == -1
}

/// The value that accompanies the status in the answer of `isFinished`: the text of
/// the second element, or empty.
pub open spec fn finished_value(arr: Seq<Reply>) -> Seq<char> {
    if arr.len() > 1 && reply_text(arr[1]) is Some {
        reply_text(arr[1])->0
    } else {
        Seq::<char>::empty()
    }
}

/// The result `isFinished` gives for a status code and its value.
pub open spec fn finished_state(status: i64, value: Seq<char>, ok: IsFinishedOk) -> bool {
    if status == 0 {
        ok == IsFinishedOk::NotFinished
    } else if status == 1 {
        ok matches IsFinishedOk::Completed(s) && s@ == value
    } else if status == 2 {
        ok matches IsFinishedOk::Failed(s) && s@ == value
    } else {
        ok == IsFinishedOk::Missing
    }
}

impl<'a> InvokeLuaScript for IsFinished<'a> {
    type RedisOutput = Reply;
    type DomainOk = IsFinishedOk;
    type DomainErr = IsFinishedError;

    open spec fn expected_output(&self, value: &Reply) -> bool {
        match *value {
            Reply::Array(arr) => arr@.len() > 0 && (arr@[0] matches Reply::Int(n) && is_finished_code(n)),
            Reply::Int(n) => is_finished_code(n),
            _ => false,
        }
    }

    fn output_is_expected(&self, value: &Reply) -> (r: bool) {
        match value {
            Reply::Array(arr) => {
                if arr.len() == 0 {
                    false
                } else {
                    match &arr[0] {
                        Reply::Int(n) => *n == 0 || *n == 1 || *n == 2 || *n == -1,
                        _ => false,
                    }
                }
            },
            Reply::Int(n) => *n == 0 || *n == 1 || *n == 2 || *n == -1,
            _ => false,
        }
    }

    fn generate_invocation(&self) -> (r: Result<ScriptCall, IsFinishedError>)
        ensures
            r matches Ok(c) && {
                &&& c.script == Script::IsFinished
                &&& texts(c.keys@) == seq![
                    qk(*self.queue, ":completed"@),
                    qk(*self.queue, ":failed"@),
                    qk(*self.queue, ":"@ + self.job_id@),
                ]
                &&& c.args@.len() == 2
                &&& is_text(c.args@[0], self.job_id@)
                &&& is_text(c.args@[1], "1"@)
            },
    {
        let keys = vec![self.queue.completed(), self.queue.failed(), self.queue.job(self.job_id)];
        let args = vec![
            ScriptArg::Text(String::from_str(self.job_id)),
            ScriptArg::Text(String::from_str("1")),
        ];
        assert(texts(keys@) =~= seq![
            qk(*self.queue, ":completed"@),
            qk(*self.queue, ":failed"@),
            qk(*self.queue, ":"@ + self.job_id@),
        ]);
        Ok(ScriptCall { script: Script::IsFinished, keys, args })
    }

    fn map_redis_error(&self, error: redis::RedisError) -> (r: IsFinishedError)
        ensures
            r == IsFinishedError::RedisError(error),
    {
        IsFinishedError::RedisError(error)
    }

    fn map_pool_error(&self, error: deadpool_redis::PoolError) -> (r: IsFinishedError)
        ensures
            r == IsFinishedError::PoolError(error),
    {
        IsFinishedError::PoolError(error)
    }

    fn map_value(&self, value: Reply) -> (r: Result<IsFinishedOk, IsFinishedError>)
        ensures
            r matches Ok(ok) && match value {
                Reply::Array(arr) => (arr@[0] matches Reply::Int(n) && finished_state(
                    n,
                    finished_value(arr@),
                    ok,
                )),
                Reply::Int(n) => finished_state(n, Seq::<char>::empty(), ok),
                _ => false,
            },
    {
        match value {
            Reply::Array(arr) => {
                let status = match &arr[0] {
                    Reply::Int(n) => *n,
                    _ => 0,
                };
                let val = if arr.len() > 1 {
                    match extract_string(&arr[1]) {
                        Some(s) => s,
                        None => String::new(),
                    }
                } else {
                    String::new()
                };
                if status == 0 {
                    Ok(IsFinishedOk::NotFinished)
                } else if status == 1 {
                    Ok(IsFinishedOk::Completed(val))
                } else if status == 2 {
                    Ok(IsFinishedOk::Failed(val))
                } else {
                    Ok(IsFinishedOk::Missing)
                }
            },
            Reply::Int(n) => {
                if n == 0 {
                    Ok(IsFinishedOk::NotFinished)
                } else if n == 1 {
                    Ok(IsFinishedOk::Completed(String::new()))
                } else if n == 2 {
                    Ok(IsFinishedOk::Failed(String::new()))
                } else {
                    Ok(IsFinishedOk::Missing)
                }
            },
            _ => Ok(IsFinishedOk::NotFinished),
        }
    }
}

// ---------- extend locks ----------

/// Refresh the locks of jobs that are being worked on.
pub struct ExtendLocks<'a> {
    /// The queue.
    pub queue: &'a QueueName,
    /// The jobs whose locks to refresh.
    pub job_ids: &'a [String],
    /// The lock tokens, one per job.
    pub tokens: &'a [String],
    /// The new lock duration.
    pub lock_duration: Duration,
}

/// The texts among `items`, in order: string replies holding valid UTF-8; other
/// items are skipped.
pub open spec fn reply_texts(items: Seq<Reply>) -> Seq<Seq<char>>
    decreases items.len(),
{
    if items.len() == 0 {
        Seq::<Seq<char>>::empty()
    } else {
        let init = reply_texts(items.drop_last());
        match reply_text(items.last()) {
            Some(t) => init.push(t),
            None => init,
        }
    }
}

/// The texts among `items`, in order, skipping what is not a UTF-8 string.
pub fn collect_texts(items: &Vec<Reply>) -> (r: Vec<String>)
    ensures
        texts(r@) == reply_texts(items@),
{
    let mut out: Vec<String> = Vec::new();
    let mut i: usize = 0;
    while i < items.len()
        invariant
            i <= items@.len(),
            texts(out@) == reply_texts(items@.take(i as int)),
        decreases items@.len() - i,
    {
        let t = extract_string(&items[i]);
        proof {
            assert(items@.take(i + 1).drop_last() =~= items@.take(i as int));
            assert(items@.take(i + 1).last() == items@[i as int]);
        }
        match t {
            Some(s) => {
                out.push(s);
                assert(texts(out@) =~= reply_texts(items@.take(i + 1)));
            },
            None => {},
        }
        i = i + 1;
    }
    assert(items@.take(items@.len() as int) =~= items@);
    out
}

impl<'a> InvokeLuaScript for ExtendLocks<'a> {
    type RedisOutput = Reply;
    type DomainOk = Vec<String>;
    type DomainErr = crate::errors::BasicRedisError;

    open spec fn expected_output(&self, value: &Reply) -> bool {
        true
    }

    fn output_is_expected(&self, value: &Reply) -> (r: bool) {
        true
    }

    fn generate_invocation(&self) -> (r: Result<ScriptCall, crate::errors::BasicRedisError>)
        ensures
            r matches Ok(c) && {
                &&& c.script == Script::ExtendLocks
                &&& texts(c.keys@) == seq![qk(*self.queue, ":stalled"@)]
                &&& c.args@.len() == 4
                &&& is_text(c.args@[0], qk(*self.queue, ":"@))
                &&& (c.args@[1] matches ScriptArg::StringList(t) && t@ == self.tokens@)
                &&& (c.args@[2] matches ScriptArg::StringList(j) && j@ == self.job_ids@)
                &&& c.args@[3] == ScriptArg::UInt(self.lock_duration.ms)
            },
    {
        let keys = vec![self.queue.stalled()];
        let args = vec![
            ScriptArg::Text(self.queue.base()),
            ScriptArg::StringList(clone_strings(self.tokens)),
            ScriptArg::StringList(clone_strings(self.job_ids)),
            ScriptArg::UInt(self.lock_duration.as_millis()),
        ];
        assert(texts(keys@) =~= seq![qk(*self.queue, ":stalled"@)]);
        Ok(ScriptCall { script: Script::ExtendLocks, keys, args })
    }

    fn map_redis_error(&self, error: redis::RedisError) -> (r: crate::errors::BasicRedisError)
        ensures
            r == crate::errors::BasicRedisError::RedisError(error),
    {
        crate::errors::BasicRedisError::RedisError(error)
    }

    fn map_pool_error(&self, error: deadpool_redis::PoolError) -> (r: crate::errors::BasicRedisError)
        ensures
            r == crate::errors::BasicRedisError::PoolError(error),
    {
        crate::errors::BasicRedisError::PoolError(error)
    }

    /// The ids of the jobs whose locks could not be extended.
    fn map_value(&self, value: Reply) -> (r: Result<Vec<String>, crate::errors::BasicRedisError>)
        ensures
            r matches Ok(ids) && match value {
                Reply::Array(items) => texts(ids@) == reply_texts(items@),
                _ => ids@.len() == 0,
            },
    {
        match value {
            Reply::Array(items) => Ok(collect_texts(&items)),
            _ => Ok(Vec::new()),
        }
    }
}

} // verus!
