//! BullMQ's wire shapes of the job options, and their conversion to and from the
//! domain types.
//!
//! These shapes mirror BullMQ's JavaScript field names; they are serialized (as
//! JSON or MessagePack) only where the Lua scripts are invoked.
use vstd::prelude::*;
use vstd::std_specs::convert::FromSpecImpl;

use crate::options::{
    clone_opt_parent, clone_opt_string, Backoff, JobOptions, Jitter, ParentRef, RateLimit, Retain,
};
use crate::time::{Duration, Timestamp};

verus! {

/// The kind of a backoff on the wire.
#[derive(Debug, Clone, Copy, PartialEq, Eq, Structural)]
pub enum WireBackoffType {
    /// `2^(attempt-1) * delay`.
    Exponential,
    /// Constant delay.
    Fixed,
}

/// Backoff options on the wire (`{delay, type, jitter}`).
#[derive(Debug, Clone, Copy, PartialEq, Eq, Structural)]
pub struct WireBackoffOptions {
    /// Delay in milliseconds.
    pub delay: Option<Duration>,
    /// Kind of backoff (serialized as `type`).
    pub kind: WireBackoffType,
    /// Jitter fraction.
    pub jitter: Option<Jitter>,
}

/// A backoff on the wire: a bare number of milliseconds or the options object.
#[derive(Debug, Clone, Copy, PartialEq, Eq, Structural)]
pub enum WireBackoff {
    /// A bare delay, meaning a fixed backoff.
    Number(Duration),
    /// The options object.
    BackoffOptions(WireBackoffOptions),
}

/// Retention of finished jobs on the wire.
#[derive(Debug, Clone, Copy, PartialEq, Eq, Structural)]
pub enum WireKeepJobs {
    /// Keep the last `n` jobs.
    Count(usize),
    /// `true` keeps all, `false` keeps none.
    Bool(bool),
    /// Keep by age and / or count.
    Config {
        /// Maximum age.
        age: Option<Duration>,
        /// Maximum count.
        count: Option<usize>,
    },
}

/// Parent of a job on the wire.
#[derive(Debug, PartialEq, Eq)]
pub struct WireParent {
    /// Parent job id.
    pub id: String,
    /// Queue key of the parent.
    pub queue: String,
}

/// Job options on the wire.
#[derive(Debug, PartialEq, Eq)]
pub struct WireJobOptions {
    /// `attempts`
    pub attempts: Option<usize>,
    /// `backoff`
    pub backoff: Option<WireBackoff>,
    /// `delay`, in milliseconds.
    pub delay: Option<Duration>,
    /// `job_id`
    pub job_id: Option<String>,
    /// `kl`: how many log lines to keep.
    pub limit_logs: Option<usize>,
    /// `lifo`
    pub lifo: Option<bool>,
    /// `parent`
    pub parent: Option<WireParent>,
    /// `priority`
    pub priority: Option<usize>,
    /// `remove_on_complete`
    pub remove_on_complete: Option<WireKeepJobs>,
    /// `remove_on_fail`
    pub remove_on_fail: Option<WireKeepJobs>,
    /// `size_limit`
    pub size_limit: Option<usize>,
    /// `stack_trace_limit`
    pub stack_trace_limit: Option<usize>,
    /// `timestamp`, in milliseconds since the epoch.
    pub timestamp: Option<Timestamp>,
    /// `cpof`: continue the parent on failure.
    pub continue_parent_on_failure: Option<bool>,
    /// `de`: deduplication key.
    pub deduplication: Option<String>,
}

/// Rate limiter on the wire (`{max, duration}`).
#[derive(Debug, Clone, Copy, PartialEq, Eq, Structural)]
pub struct WireRateLimiter {
    /// Maximum number of jobs per window.
    pub max: usize,
    /// Window length.
    pub duration: Duration,
}

/// Options of `moveToActive` on the wire.
#[derive(Debug, PartialEq, Eq)]
pub struct WireMoveToActiveOpts {
    /// Lock token for the job that is moved to active.
    pub token: String,
    /// `lockDuration`, in milliseconds.
    pub lock_duration: Duration,
    /// Rate limiter.
    pub limiter: WireRateLimiter,
    /// Name of the worker.
    pub name: String,
}

/// Retention of finished jobs in the options of `moveToFinished` (`keepJobs`).
#[derive(Debug, Clone, Copy, PartialEq, Eq, Structural)]
pub struct WireKeepJobsConfig {
    /// How many jobs to keep; `-1` keeps all.
    pub count: i64,
    /// Maximum age.
    pub age: Option<Duration>,
}

/// Options of `moveToFinished` on the wire.
#[derive(Debug, PartialEq, Eq)]
pub struct WireMoveToFinishedOpts {
    /// Lock token of the job.
    pub token: String,
    /// `keepJobs`
    pub keep_jobs: WireKeepJobsConfig,
    /// `lockDuration`, in milliseconds.
    pub lock_duration: Duration,
    /// `attempts`
    pub attempts: usize,
    /// `maxMetricsSize`
    pub max_metrics_size: usize,
    /// `fpof`: fail the parent on failure.
    pub fail_parent_on_fail: Option<bool>,
    /// `cpof`: continue the parent on failure.
    pub continue_parent_on_failure: Option<bool>,
    /// `idof`: ignore the dependency on failure.
    pub ignore_dependency_on_fail: Option<bool>,
    /// `rdof`: remove the dependency on failure.
    pub remove_dependency_on_fail: Option<bool>,
    /// `name` of the worker.
    pub name: String,
    /// `limiter`
    pub limiter: Option<WireRateLimiter>,
}

/// Options of a job scheduler on the wire (`addJobScheduler`), stored under the
/// `bull:<q>:repeat:<id>` hash.
#[derive(Debug, PartialEq, Eq)]
pub struct WireSchedulerOpts {
    /// Name of the produced jobs.
    pub name: String,
    /// Timezone of a cron pattern.
    pub tz: Option<String>,
    /// Cron pattern.
    pub pattern: Option<String>,
    /// `endDate`, in milliseconds since the epoch.
    pub end_date: Option<i64>,
    /// Interval of an `every` schedule, in milliseconds.
    pub every: Option<u64>,
    /// Offset of an `every` schedule, in milliseconds.
    pub offset: Option<i64>,
    /// `startDate`, in milliseconds since the epoch.
    pub start_date: Option<i64>,
    /// Maximum number of jobs to produce.
    pub limit: Option<u64>,
}

// ---------- Domain → Wire ----------

/// The wire form of a backoff: always the options object.
pub open spec fn wire_backoff_of(b: Backoff) -> WireBackoff {
    match b {
        Backoff::Fixed { delay } => WireBackoff::BackoffOptions(
            WireBackoffOptions { delay: Some(delay), kind: WireBackoffType::Fixed, jitter: None },
        ),
        Backoff::Exponential { base, jitter } => WireBackoff::BackoffOptions(
            WireBackoffOptions { delay: Some(base), kind: WireBackoffType::Exponential, jitter },
        ),
    }
}

/// The wire form of a retention rule.
pub open spec fn wire_keep_jobs_of(r: Retain) -> WireKeepJobs {
    match r {
        Retain::Forever => WireKeepJobs::Bool(true),
        Retain::Drop => WireKeepJobs::Bool(false),
        Retain::LastN(n) => WireKeepJobs::Count(n),
        Retain::OlderThan(age) => WireKeepJobs::Config { age: Some(age), count: None },
        Retain::Both { count, age } => WireKeepJobs::Config { age: Some(age), count: Some(count) },
    }
}

/// The wire form of a parent reference.
pub open spec fn wire_parent_of(p: ParentRef) -> WireParent {
    WireParent { id: p.id, queue: p.queue }
}

/// The wire form of job options: field by field.
pub open spec fn wire_job_options_of(o: JobOptions) -> WireJobOptions {
    WireJobOptions {
        attempts: o.attempts,
        backoff: match o.backoff {
            Some(b) => Some(wire_backoff_of(b)),
            None => None,
        },
        delay: o.delay,
        job_id: o.job_id,
        limit_logs: o.limit_logs,
        lifo: o.lifo,
        parent: match o.parent {
            Some(p) => Some(wire_parent_of(p)),
            None => None,
        },
        priority: o.priority,
        remove_on_complete: match o.remove_on_complete {
            Some(r) => Some(wire_keep_jobs_of(r)),
            None => None,
        },
        remove_on_fail: match o.remove_on_fail {
            Some(r) => Some(wire_keep_jobs_of(r)),
            None => None,
        },
        size_limit: o.size_limit,
        stack_trace_limit: o.stack_trace_limit,
        timestamp: o.timestamp,
        continue_parent_on_failure: o.continue_parent_on_failure,
        deduplication: o.deduplication,
    }
}

impl<'a> From<&'a Backoff> for WireBackoff {
    fn from(b: &'a Backoff) -> (w: Self) {
        match b {
            Backoff::Fixed { delay } => WireBackoff::BackoffOptions(
                WireBackoffOptions {
                    delay: Some(*delay),
                    kind: WireBackoffType::Fixed,
                    jitter: None,
                },
            ),
            Backoff::Exponential { base, jitter } => WireBackoff::BackoffOptions(
                WireBackoffOptions {
                    delay: Some(*base),
                    kind: WireBackoffType::Exponential,
                    jitter: *jitter,
                },
            ),
        }
    }
}

impl<'a> FromSpecImpl<&'a Backoff> for WireBackoff {
    open spec fn obeys_from_spec() -> bool {
        true
    }

    open spec fn from_spec(b: &'a Backoff) -> Self {
        wire_backoff_of(*b)
    }
}

impl<'a> From<&'a Retain> for WireKeepJobs {
    fn from(r: &'a Retain) -> (w: Self) {
        match r {
            Retain::Forever => WireKeepJobs::Bool(true),
            Retain::Drop => WireKeepJobs::Bool(false),
            Retain::LastN(n) => WireKeepJobs::Count(*n),
            Retain::OlderThan(age) => WireKeepJobs::Config { age: Some(*age), count: None },
            Retain::Both { count, age } => WireKeepJobs::Config {
                age: Some(*age),
                count: Some(*count),
            },
        }
    }
}

impl<'a> FromSpecImpl<&'a Retain> for WireKeepJobs {
    open spec fn obeys_from_spec() -> bool {
        true
    }

    open spec fn from_spec(r: &'a Retain) -> Self {
        wire_keep_jobs_of(*r)
    }
}

impl<'a> From<&'a ParentRef> for WireParent {
    fn from(p: &'a ParentRef) -> (w: Self) {
        WireParent { id: p.id.clone(), queue: p.queue.clone() }
    }
}

impl<'a> FromSpecImpl<&'a ParentRef> for WireParent {
    open spec fn obeys_from_spec() -> bool {
        true
    }

    open spec fn from_spec(p: &'a ParentRef) -> Self {
        wire_parent_of(*p)
    }
}

impl<'a> From<&'a JobOptions> for WireJobOptions {
    fn from(o: &'a JobOptions) -> (w: Self) {
        WireJobOptions {
            attempts: o.attempts,
            backoff: match &o.backoff {
                Some(b) => Some(WireBackoff::from(b)),
                None => None,
            },
            delay: o.delay,
            job_id: clone_opt_string(&o.job_id),
            limit_logs: o.limit_logs,
            lifo: o.lifo,
            parent: match &o.parent {
                Some(p) => Some(WireParent::from(p)),
                None => None,
            },
            priority: o.priority,
            remove_on_complete: match &o.remove_on_complete {
                Some(r) => Some(WireKeepJobs::from(r)),
                None => None,
            },
            remove_on_fail: match &o.remove_on_fail {
                Some(r) => Some(WireKeepJobs::from(r)),
                None => None,
            },
            size_limit: o.size_limit,
            stack_trace_limit: o.stack_trace_limit,
            timestamp: o.timestamp,
            continue_parent_on_failure: o.continue_parent_on_failure,
            deduplication: clone_opt_string(&o.deduplication),
        }
    }
}

impl<'a> FromSpecImpl<&'a JobOptions> for WireJobOptions {
    open spec fn obeys_from_spec() -> bool {
        true
    }

    open spec fn from_spec(o: &'a JobOptions) -> Self {
        wire_job_options_of(*o)
    }
}

impl<'a> From<&'a RateLimit> for WireRateLimiter {
    fn from(r: &'a RateLimit) -> (w: Self) {
        WireRateLimiter { max: r.max, duration: r.window }
    }
}

impl<'a> FromSpecImpl<&'a RateLimit> for WireRateLimiter {
    open spec fn obeys_from_spec() -> bool {
        true
    }

    open spec fn from_spec(r: &'a RateLimit) -> Self {
        WireRateLimiter { max: r.max, duration: r.window }
    }
}

impl From<RateLimit> for WireRateLimiter {
    fn from(r: RateLimit) -> (w: Self) {
        WireRateLimiter::from(&r)
    }
}

impl FromSpecImpl<RateLimit> for WireRateLimiter {
    open spec fn obeys_from_spec() -> bool {
        true
    }

    open spec fn from_spec(r: RateLimit) -> Self {
        WireRateLimiter { max: r.max, duration: r.window }
    }
}

// ---------- Wire → Domain ----------

/// The domain form of a wire backoff; a missing delay counts as zero.
pub open spec fn backoff_of_wire(w: WireBackoff) -> Backoff {
    match w {
        WireBackoff::Number(d) => Backoff::Fixed { delay: d },
        WireBackoff::BackoffOptions(o) => match o.kind {
            WireBackoffType::Fixed => Backoff::Fixed {
                delay: match o.delay {
                    Some(d) => d,
                    None => Duration { ms: 0 },
                },
            },
            WireBackoffType::Exponential => Backoff::Exponential {
                base: match o.delay {
                    Some(d) => d,
                    None => Duration { ms: 0 },
                },
                jitter: o.jitter,
            },
        },
    }
}

/// The domain form of a wire retention rule; a config without age nor count
/// keeps all jobs.
pub open spec fn retain_of_wire(w: WireKeepJobs) -> Retain {
    match w {
        WireKeepJobs::Bool(true) => Retain::Forever,
        WireKeepJobs::Bool(false) => Retain::Drop,
        WireKeepJobs::Count(n) => Retain::LastN(n),
        WireKeepJobs::Config { age, count } => match (age, count) {
            (Some(age), Some(count)) => Retain::Both { age, count },
            (Some(age), None) => Retain::OlderThan(age),
            (None, Some(count)) => Retain::LastN(count),
            (None, None) => Retain::Forever,
        },
    }
}

/// The domain form of a wire parent.
pub open spec fn parent_of_wire(w: WireParent) -> ParentRef {
    ParentRef { id: w.id, queue: w.queue }
}

/// The domain form of wire job options: field by field.
pub open spec fn job_options_of_wire(w: WireJobOptions) -> JobOptions {
    JobOptions {
        attempts: w.attempts,
        backoff: match w.backoff {
            Some(b) => Some(backoff_of_wire(b)),
            None => None,
        },
        delay: w.delay,
        job_id: w.job_id,
        limit_logs: w.limit_logs,
        lifo: w.lifo,
        parent: match w.parent {
            Some(p) => Some(parent_of_wire(p)),
            None => None,
        },
        priority: w.priority,
        remove_on_complete: match w.remove_on_complete {
            Some(r) => Some(retain_of_wire(r)),
            None => None,
        },
        remove_on_fail: match w.remove_on_fail {
            Some(r) => Some(retain_of_wire(r)),
            None => None,
        },
        size_limit: w.size_limit,
        stack_trace_limit: w.stack_trace_limit,
        timestamp: w.timestamp,
        continue_parent_on_failure: w.continue_parent_on_failure,
        deduplication: w.deduplication,
    }
}

impl From<WireBackoff> for Backoff {
    fn from(w: WireBackoff) -> (b: Self) {
        match w {
            WireBackoff::Number(d) => Backoff::Fixed { delay: d },
            WireBackoff::BackoffOptions(o) => match o.kind {
                WireBackoffType::Fixed => Backoff::Fixed {
                    delay: match o.delay {
                        Some(d) => d,
                        None => Duration::zero(),
                    },
                },
                WireBackoffType::Exponential => Backoff::Exponential {
                    base: match o.delay {
                        Some(d) => d,
                        None => Duration::zero(),
                    },
                    jitter: o.jitter,
                },
            },
        }
    }
}

impl FromSpecImpl<WireBackoff> for Backoff {
    open spec fn obeys_from_spec() -> bool {
        true
    }

    open spec fn from_spec(w: WireBackoff) -> Self {
        backoff_of_wire(w)
    }
}

impl From<WireKeepJobs> for Retain {
    fn from(w: WireKeepJobs) -> (r: Self) {
        match w {
            WireKeepJobs::Bool(true) => Retain::Forever,
            WireKeepJobs::Bool(false) => Retain::Drop,
            WireKeepJobs::Count(n) => Retain::LastN(n),
            WireKeepJobs::Config { age, count } => match (age, count) {
                (Some(age), Some(count)) => Retain::Both { age, count },
                (Some(age), None) => Retain::OlderThan(age),
                (None, Some(count)) => Retain::LastN(count),
                (None, None) => Retain::Forever,
            },
        }
    }
}

impl FromSpecImpl<WireKeepJobs> for Retain {
    open spec fn obeys_from_spec() -> bool {
        true
    }

    open spec fn from_spec(w: WireKeepJobs) -> Self {
        retain_of_wire(w)
    }
}

impl From<WireParent> for ParentRef {
    fn from(w: WireParent) -> (p: Self) {
        ParentRef { id: w.id, queue: w.queue }
    }
}

impl FromSpecImpl<WireParent> for ParentRef {
    open spec fn obeys_from_spec() -> bool {
        true
    }

    open spec fn from_spec(w: WireParent) -> Self {
        parent_of_wire(w)
    }
}

impl From<WireJobOptions> for JobOptions {
    fn from(w: WireJobOptions) -> (o: Self) {
        JobOptions {
            attempts: w.attempts,
            backoff: match w.backoff {
                Some(b) => Some(Backoff::from(b)),
                None => None,
            },
            delay: w.delay,
            job_id: w.job_id,
            limit_logs: w.limit_logs,
            lifo: w.lifo,
            parent: match w.parent {
                Some(p) => Some(ParentRef::from(p)),
                None => None,
            },
            priority: w.priority,
            remove_on_complete: match w.remove_on_complete {
                Some(r) => Some(Retain::from(r)),
                None => None,
            },
            remove_on_fail: match w.remove_on_fail {
                Some(r) => Some(Retain::from(r)),
                None => None,
            },
            size_limit: w.size_limit,
            stack_trace_limit: w.stack_trace_limit,
            timestamp: w.timestamp,
            continue_parent_on_failure: w.continue_parent_on_failure,
            deduplication: w.deduplication,
        }
    }
}

impl FromSpecImpl<WireJobOptions> for JobOptions {
    open spec fn obeys_from_spec() -> bool {
        true
    }

    open spec fn from_spec(w: WireJobOptions) -> Self {
        job_options_of_wire(w)
    }
}

// ---------- Laws ----------

/// A backoff survives the trip to the wire and back unchanged.
pub proof fn lemma_backoff_round_trip(b: Backoff)
    ensures
        backoff_of_wire(wire_backoff_of(b)) == b,
{
}

/// A retention rule survives the trip to the wire and back unchanged.
pub proof fn lemma_retain_round_trip(r: Retain)
    ensures
        retain_of_wire(wire_keep_jobs_of(r)) == r,
{
}

/// A parent reference survives the trip to the wire and back unchanged.
pub proof fn lemma_parent_round_trip(p: ParentRef)
    ensures
        parent_of_wire(wire_parent_of(p)) == p,
{
}

/// Job options survive the trip to the wire and back unchanged.
pub proof fn lemma_job_options_round_trip(o: JobOptions)
    ensures
        job_options_of_wire(wire_job_options_of(o)) == o,
{
    assert(job_options_of_wire(wire_job_options_of(o)).backoff == o.backoff);
    assert(job_options_of_wire(wire_job_options_of(o)).remove_on_complete == o.remove_on_complete);
    assert(job_options_of_wire(wire_job_options_of(o)).remove_on_fail == o.remove_on_fail);
    assert(job_options_of_wire(wire_job_options_of(o)).parent == o.parent);
}

/// A bare number on the wire is read as a fixed backoff, and gives the same backoff
/// as the options object of a fixed backoff with that delay.
pub proof fn lemma_number_backoff_is_fixed(d: Duration)
    ensures
        backoff_of_wire(WireBackoff::Number(d)) == (Backoff::Fixed { delay: d }),
        backoff_of_wire(WireBackoff::Number(d)) == backoff_of_wire(
            wire_backoff_of((Backoff::Fixed { delay: d })),
        ),
{
}

/// A wire retention rule read into the domain and written back keeps its meaning:
/// reading the written form gives the same rule again.
pub proof fn lemma_keep_jobs_normalizes(w: WireKeepJobs)
    ensures
        retain_of_wire(wire_keep_jobs_of(retain_of_wire(w))) == retain_of_wire(w),
{
}

} // verus!
