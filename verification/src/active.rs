//! Picking up jobs: `moveToActive` and reading the job it hands out.
use vstd::prelude::*;
use vstd::string::*;

use crate::commands::qk;
use crate::errors::{MoveToActiveErr, RedisHashMapError};
use crate::fields::{
    extract_opt_i64, extract_opt_usize, extract_timestamp_ms, field, get_v, job_data_map, json_i64,
    json_opt_i64, json_opt_usize, lookup, pair_texts, pairs_from, PairsOutcome,
};
use crate::ids::{id_result, SchedulerId};
use crate::name::QueueName;
use crate::options::{JobOptions, RateLimit};
use crate::reply::Reply;
use crate::script::{is_text, texts, InvokeLuaScript, Script, ScriptArg, ScriptCall};
use crate::time::{chrono_millis_in_range, Duration, Timestamp};
use crate::wire::{WireMoveToActiveOpts, WireRateLimiter};

verus! {

/// A job picked up from a queue, ready to be processed by a worker.
#[derive(Debug)]
pub struct ActiveJob<D> {
    /// Job name (the template name set at enqueue time).
    pub name: String,
    /// The job payload.
    pub data: D,
    /// Priority assigned at enqueue time (`None` ≡ highest priority).
    pub priority: Option<usize>,
    /// Time the job was created.
    pub timestamp: Timestamp,
    /// Time the job was first moved to active, if known.
    pub processed_on: Option<Timestamp>,
    /// Configured delay, if any.
    pub delay: Option<Duration>,
    /// Stalled-counter (incremented when the worker fails to refresh the lock).
    pub stalled_count: Option<usize>,
    /// Scheduler that produced this job, if any.
    pub scheduled_by: Option<SchedulerId>,
    /// Job options as stored on the job hash, when present.
    pub options: Option<JobOptions>,
}

impl<D> ActiveJob<D> {
    /// The same job with its payload replaced by `data` (e.g. once decoded).
    pub fn with_data<E>(self, data: E) -> (r: ActiveJob<E>)
        ensures
            r.name == self.name,
            r.data == data,
            r.priority == self.priority,
            r.timestamp == self.timestamp,
            r.processed_on == self.processed_on,
            r.delay == self.delay,
            r.stalled_count == self.stalled_count,
            r.scheduled_by == self.scheduled_by,
            r.options == self.options,
    {
        ActiveJob {
            name: self.name,
            data,
            priority: self.priority,
            timestamp: self.timestamp,
            processed_on: self.processed_on,
            delay: self.delay,
            stalled_count: self.stalled_count,
            scheduled_by: self.scheduled_by,
            options: self.options,
        }
    }
}

/// Why the fields of a job hash do not make an active job.
pub enum JobFieldsError {
    /// A required field is missing.
    Missing(Seq<char>),
    /// A field does not hold the JSON expected.
    Deserialize,
    /// The creation time is out of the representable range.
    OutOfRange(Seq<char>, i64),
}

/// What the fields of a job hash tell about an active job.
pub struct JobFieldsView {
    /// `name`
    pub name: Seq<char>,
    /// `data`, as JSON text.
    pub data: Seq<char>,
    /// `priority`
    pub priority: Option<usize>,
    /// `timestamp`, in milliseconds.
    pub timestamp: i64,
    /// `delay` in milliseconds, negative values counting as zero.
    pub delay: Option<u64>,
    /// `rjk`, when it is a valid scheduler id.
    pub scheduled_by: Option<Seq<char>>,
}

/// Read an active job out of the fields of its hash: `name`, `data` and `timestamp`
/// are required, and read in this order after `name`, `data`, `priority`; a `delay`
/// below zero counts as zero; an invalid scheduler id in `rjk` is dropped.
pub open spec fn job_fields_spec(f: Seq<(String, String)>) -> Result<JobFieldsView, JobFieldsError> {
    match lookup(f, "name"@) {
        None => Err(JobFieldsError::Missing("name"@)),
        Some(name) => match lookup(f, "data"@) {
            None => Err(JobFieldsError::Missing("data"@)),
            Some(data) => {
                let priority = match lookup(f, "priority"@) {
                    None => Some(None),
                    Some(t) => json_opt_usize(t),
                };
                match priority {
                    None => Err(JobFieldsError::Deserialize),
                    Some(priority) => match lookup(f, "timestamp"@) {
                        None => Err(JobFieldsError::Missing("timestamp"@)),
                        Some(t) => match json_i64(t) {
                            None => Err(JobFieldsError::Deserialize),
                            Some(ts) => if !chrono_millis_in_range(ts) {
                                Err(JobFieldsError::OutOfRange("timestamp"@, ts))
                            } else {
                                let delay = match lookup(f, "delay"@) {
                                    None => Some(None),
                                    Some(t) => json_opt_i64(t),
                                };
                                match delay {
                                    None => Err(JobFieldsError::Deserialize),
                                    Some(delay) => Ok(
                                        JobFieldsView {
                                            name,
                                            data,
                                            priority,
                                            timestamp: ts,
                                            delay: match delay {
                                                Some(d) => Some(if d < 0 { 0u64 } else { d as u64 }),
                                                None => None,
                                            },
                                            scheduled_by: match lookup(f, "rjk"@) {
                                                Some(t) => match id_result(t) {
                                                    Ok(id) => Some(id),
                                                    Err(_) => None,
                                                },
                                                None => None,
                                            },
                                        },
                                    ),
                                }
                            },
                        },
                    },
                }
            },
        },
    }
}

/// Whether `e` is the error `fe` describes.
pub open spec fn hash_error_matches(e: RedisHashMapError, fe: JobFieldsError) -> bool {
    match fe {
        JobFieldsError::Missing(k) => e matches RedisHashMapError::Missing { key } && key@ == k,
        JobFieldsError::Deserialize => e matches RedisHashMapError::Deserialize(_),
        JobFieldsError::OutOfRange(k, v) => e matches RedisHashMapError::TimeStampOutOfRange {
            key,
            ts,
        } && key@ == k && ts == v,
    }
}

/// Read an active job out of the fields of its hash. `options` are the job options
/// read from its `opts` field (`None` when absent or not understood); the payload
/// stays JSON text.
pub fn active_job_from_fields(fields: &Vec<(String, String)>, options: Option<JobOptions>) -> (r:
    Result<ActiveJob<String>, RedisHashMapError>)
    ensures
        match (r, job_fields_spec(fields@)) {
            (Ok(job), Ok(v)) => {
                &&& job.name@ == v.name
                &&& job.data@ == v.data
                &&& job.priority == v.priority
                &&& job.timestamp@ == v.timestamp
                &&& job.timestamp.wf()
                &&& job.processed_on is None
                &&& job.delay == (match v.delay {
                    Some(ms) => Some(Duration { ms }),
                    None => None,
                })
                &&& job.stalled_count is None
                &&& match (job.scheduled_by, v.scheduled_by) {
                    (Some(id), Some(t)) => id@ == t && id.wf(),
                    (None, None) => true,
                    _ => false,
                }
                &&& job.options == options
            },
            (Err(e), Err(fe)) => hash_error_matches(e, fe),
            _ => false,
        },
{
    let scheduled_by = match field(fields, "rjk") {
        Some(s) => match SchedulerId::try_new(s.as_str()) {
            Ok(id) => Some(id),
            Err(_) => None,
        },
        None => None,
    };
    let name = match get_v(fields, "name") {
        Ok(v) => v,
        Err(e) => return Err(e),
    };
    let data = match get_v(fields, "data") {
        Ok(v) => v,
        Err(e) => return Err(e),
    };
    let priority = match extract_opt_usize(fields, "priority") {
        Ok(v) => v,
        Err(e) => return Err(e),
    };
    let timestamp = match extract_timestamp_ms(fields, "timestamp") {
        Ok(v) => v,
        Err(e) => return Err(e),
    };
    let delay = match extract_opt_i64(fields, "delay") {
        Ok(Some(d)) => Some(Duration::from_millis(if d < 0 { 0u64 } else { d as u64 })),
        Ok(None) => None,
        Err(e) => return Err(e),
    };
    proof {
        reveal_strlit("name");
    }
    Ok(ActiveJob {
        name,
        data,
        priority,
        timestamp,
        processed_on: None,
        delay,
        stalled_count: None,
        scheduled_by,
        options,
    })
}

/// Pull the next available job from `wait` / `prioritized` / `delayed` into `active`.
pub struct MoveToActive<'a> {
    /// The queue.
    pub queue: &'a QueueName,
    /// Name of the worker.
    pub worker_id: &'a str,
    /// Rate limiter of the queue.
    pub limiter: RateLimit,
    /// How long the job's lock lasts without refresh.
    pub lock_duration: Duration,
    /// Lock token for the job that is picked up.
    pub token: &'a str,
}

/// What `moveToActive` hands out.
#[derive(Debug)]
pub enum MoveToActiveOk<D> {
    /// A job: its id and its data.
    JobData {
        /// Id of the job.
        id: String,
        /// Data of the job.
        data: D,
    },
    /// No job yet; the next delayed job is due after this delay (`expireTime`).
    Delay {
        /// Time until the next job.
        delay: Duration,
    },
    /// No job yet; the next delayed job is due at this time (`nextTimestamp`).
    WaitUntil {
        /// When the next job is due.
        timestamp: Timestamp,
    },
    /// No (delayed) jobs there, queue is paused, or reached maximal concurrency.
    NothingToDo,
}

/// The keys of `moveToActive`.
pub open spec fn move_to_active_keys(q: QueueName) -> Seq<Seq<char>> {
    seq![
        qk(q, ":wait"@),
        qk(q, ":active"@),
        qk(q, ":prioritized"@),
        qk(q, ":events"@),
        qk(q, ":stalled"@),
        qk(q, ":limiter"@),
        qk(q, ":delayed"@),
        qk(q, ":paused"@),
        qk(q, ":meta"@),
        qk(q, ":pc"@),
        qk(q, ":marker"@),
    ]
}

/// Whether `c` is the `moveToActive` invocation of `m` at time `now`.
pub open spec fn is_move_to_active_call(c: ScriptCall, m: MoveToActive, now: i64) -> bool {
    &&& c.script == Script::MoveToActive
    &&& texts(c.keys@) == move_to_active_keys(*m.queue)
    &&& c.args@.len() == 3
    &&& is_text(c.args@[0], qk(*m.queue, ":"@))
    &&& c.args@[1] == ScriptArg::Int(now)
    &&& (c.args@[2] matches ScriptArg::MoveToActiveOpts(o) && {
        &&& o.token@ == m.token@
        &&& o.lock_duration == m.lock_duration
        &&& o.limiter == (WireRateLimiter { max: m.limiter.max, duration: m.limiter.window })
        &&& o.name@ == m.worker_id@
    })
}

impl<'a> MoveToActive<'a> {
    /// The invocation at time `now`.
    pub fn invocation_at(&self, now: Timestamp) -> (c: ScriptCall)
        ensures
            is_move_to_active_call(c, *self, now@),
    {
        let q = self.queue;
        let keys = vec![
            q.wait(),
            q.active(),
            q.prioritized(),
            q.events(),
            q.stalled(),
            q.limiter(),
            q.delayed(),
            q.paused(),
            q.meta(),
            q.priority_counter(),
            q.marker(),
        ];
        let opts = WireMoveToActiveOpts {
            token: String::from_str(self.token),
            lock_duration: self.lock_duration,
            limiter: WireRateLimiter::from(&self.limiter),
            name: String::from_str(self.worker_id),
        };
        let args = vec![
            ScriptArg::Text(q.prefix()),
            ScriptArg::Int(now.timestamp_millis()),
            ScriptArg::MoveToActiveOpts(opts),
        ];
        assert(texts(keys@) =~= move_to_active_keys(*self.queue));
        ScriptCall { script: Script::MoveToActive, keys, args }
    }
}

/// Whether the answer of `moveToActive` is one the script gives: a job (with both
/// times zero), or no job (`0`) with at most one of the times set.
pub open spec fn move_to_active_answer_ok(value: (Reply, String, u64, i64)) -> bool {
    if value.0 matches Reply::Int(n) && n == 0 {
        value.2 == 0 || value.3 == 0
    } else {
        value.2 == 0 && value.3 == 0
    }
}

impl<'a> InvokeLuaScript for MoveToActive<'a> {
    type RedisOutput = (Reply, String, u64, i64);
    type DomainOk = MoveToActiveOk<Vec<(String, String)>>;
    type DomainErr = MoveToActiveErr;

    open spec fn expected_output(&self, value: &(Reply, String, u64, i64)) -> bool {
        move_to_active_answer_ok(*value)
    }

    fn output_is_expected(&self, value: &(Reply, String, u64, i64)) -> (r: bool) {
        let no_job = match &value.0 {
            Reply::Int(n) => *n == 0,
            _ => false,
        };
        if no_job {
            value.2 == 0 || value.3 == 0
        } else {
            value.2 == 0 && value.3 == 0
        }
    }

    /// The invocation at the current time.
    fn generate_invocation(&self) -> (r: Result<ScriptCall, MoveToActiveErr>)
        ensures
            r matches Ok(c) && exists|now: i64| #![auto]
                chrono_millis_in_range(now) && is_move_to_active_call(c, *self, now),
    {
        let now = Timestamp::now();
        let c = self.invocation_at(now);
        assert(chrono_millis_in_range(now@) && is_move_to_active_call(c, *self, now@));
        Ok(c)
    }

    fn map_redis_error(&self, error: redis::RedisError) -> (r: MoveToActiveErr)
        ensures
            r == MoveToActiveErr::RedisError(error),
    {
        MoveToActiveErr::RedisError(error)
    }

    fn map_pool_error(&self, error: deadpool_redis::PoolError) -> (r: MoveToActiveErr)
        ensures
            r == MoveToActiveErr::PoolError(error),
    {
        MoveToActiveErr::PoolError(error)
    }

    /// Read the answer: `(job hash or 0, job id, expireTime, nextTimestamp)`.
    fn map_value(&self, value: (Reply, String, u64, i64)) -> (r: Result<
        MoveToActiveOk<Vec<(String, String)>>,
        MoveToActiveErr,
    >)
        ensures
            ({
                let (data, id, et, nt) = value;
                if data matches Reply::Int(n) && n == 0 {
                    if et != 0 {
                        r matches Ok(MoveToActiveOk::Delay { delay }) && delay.ms == et
                    } else if nt != 0 {
                        if chrono_millis_in_range(nt) {
                            r matches Ok(MoveToActiveOk::WaitUntil { timestamp }) && timestamp@ == nt
                                && timestamp.wf()
                        } else {
                            r matches Err(MoveToActiveErr::BadTimestamp { ts }) && ts == nt
                        }
                    } else {
                        r matches Ok(MoveToActiveOk::NothingToDo)
                    }
                } else {
                    match data {
                        Reply::Array(items) => match pairs_from(items@, 0) {
                            PairsOutcome::Fields(f) => r matches Ok(
                                MoveToActiveOk::JobData { id: jid, data: fields },
                            ) && jid == id && pair_texts(fields@) == f,
                            PairsOutcome::BadUtf8 => r matches Err(
                                MoveToActiveErr::RedisStringInvalid(_),
                            ),
                            PairsOutcome::Unexpected => r matches Err(
                                MoveToActiveErr::UnexpectedRedisValue { value: v },
                            ) && v == data,
                        },
                        _ => r matches Err(MoveToActiveErr::UnexpectedRedisValue { value: v }) && v
                            == data,
                    }
                }
            }),
    {
        let (data, id, et, nt) = value;
        let no_job = match &data {
            Reply::Int(n) => *n == 0,
            _ => false,
        };
        if no_job {
            if et != 0 {
                Ok(MoveToActiveOk::Delay { delay: Duration::from_millis(et) })
            } else if nt != 0 {
                match Timestamp::from_millis(nt) {
                    Some(timestamp) => Ok(MoveToActiveOk::WaitUntil { timestamp }),
                    None => Err(MoveToActiveErr::BadTimestamp { ts: nt }),
                }
            } else {
                Ok(MoveToActiveOk::NothingToDo)
            }
        } else {
            match job_data_map(data) {
                Ok(fields) => Ok(MoveToActiveOk::JobData { id, data: fields }),
                Err(e) => Err(e),
            }
        }
    }
}

} // verus!
