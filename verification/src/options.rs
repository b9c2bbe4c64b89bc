//! Options that configure how a job is enqueued, retried and retained.
use vstd::prelude::*;

use crate::time::{Duration, Timestamp};

verus! {

/// The jitter of an exponential backoff: a fraction (e.g. `0.1` for ±10%), kept as
/// the IEEE-754 bit pattern of the `f32` the caller gave, so that it travels
/// unchanged to Redis and back.
#[derive(Debug, Clone, Copy, PartialEq, Eq, Hash, Structural)]
pub struct Jitter {
    /// The bits of the `f32` fraction (`f32::to_bits`).
    pub bits: u32,
}

impl Jitter {
    /// Jitter from the bit pattern of an `f32` (`f32::to_bits`).
    pub fn from_bits(bits: u32) -> (r: Jitter)
        ensures
            r.bits == bits,
    {
        Jitter { bits }
    }

    /// The bit pattern of the jitter (`f32::from_bits` gives the fraction back).
    pub fn to_bits(&self) -> (r: u32)
        ensures
            r == self.bits,
    {
        self.bits
    }
}

/// Retry-backoff strategy for failed jobs.
#[derive(Debug, Clone, Copy, PartialEq, Eq, Structural)]
pub enum Backoff {
    /// Wait `delay` before each retry.
    Fixed {
        /// Constant delay between retries.
        delay: Duration,
    },
    /// Exponential backoff: `base * 2^(attempt-1)`, with an optional jitter fraction.
    Exponential {
        /// Base delay used for the first retry.
        base: Duration,
        /// Optional jitter factor (0.0–1.0).
        jitter: Option<Jitter>,
    },
}

/// Reference to a parent job in a flow.
#[derive(Debug, PartialEq, Eq)]
pub struct ParentRef {
    /// Parent job ID.
    pub id: String,
    /// Fully-qualified queue key of the parent (BullMQ-style).
    pub queue: String,
}

impl Clone for ParentRef {
    fn clone(&self) -> (r: Self)
        ensures
            r == *self,
    {
        ParentRef { id: self.id.clone(), queue: self.queue.clone() }
    }
}

/// How long completed / failed jobs are retained.
#[derive(Debug, Clone, Copy, PartialEq, Eq, Structural)]
pub enum Retain {
    /// Keep all jobs forever.
    Forever,
    /// Drop jobs as soon as they finish.
    Drop,
    /// Keep the most recent N jobs.
    LastN(usize),
    /// Keep jobs newer than `age`.
    OlderThan(Duration),
    /// Keep jobs satisfying both bounds (count and age).
    Both {
        /// Maximum number of jobs to keep.
        count: usize,
        /// Maximum age of jobs to keep.
        age: Duration,
    },
}

/// A copy of an optional string.
pub fn clone_opt_string(s: &Option<String>) -> (r: Option<String>)
    ensures
        r == *s,
{
    match s {
        Some(v) => Some(v.clone()),
        None => None,
    }
}

/// A copy of an optional parent reference.
pub fn clone_opt_parent(p: &Option<ParentRef>) -> (r: Option<ParentRef>)
    ensures
        r == *p,
{
    match p {
        Some(v) => Some(v.clone()),
        None => None,
    }
}

/// Configure enqueue and retry behaviour of a job.
///
/// Repeating / scheduled jobs are configured via a job scheduler, they are not
/// part of `JobOptions`.
#[derive(Debug, PartialEq, Eq)]
pub struct JobOptions {
    /// Maximum tries before considering a job failed. Will be tried at least once,
    /// even for `Some(0)`.
    pub attempts: Option<usize>,
    /// Describe _when_ a job should be retried on failure (attempts > 1).
    pub backoff: Option<Backoff>,
    /// Initial delay before the job becomes available to a worker.
    pub delay: Option<Duration>,
    /// Overwrite the auto-generated job ID. If a job with the given id already
    /// exists, it is not added.
    pub job_id: Option<String>,
    /// Keep only the N newest log entries of a job. `None` keeps all logs.
    pub limit_logs: Option<usize>,
    /// Last In First Out — push to the front of the wait list instead of the back.
    pub lifo: Option<bool>,
    /// Configure parent job relation.
    pub parent: Option<ParentRef>,
    /// No priority means highest priority. Higher numbers mean lower priority.
    pub priority: Option<usize>,
    /// When and how to keep jobs after completing.
    pub remove_on_complete: Option<Retain>,
    /// When and how to keep jobs after failing and exceeding all attempts.
    pub remove_on_fail: Option<Retain>,
    /// Maximum payload size in bytes.
    pub size_limit: Option<usize>,
    /// Maximum line count for stack traces.
    pub stack_trace_limit: Option<usize>,
    /// Creation timestamp; defaults to now when the job is enqueued.
    pub timestamp: Option<Timestamp>,
    /// Whether the parent should continue on failure of this job.
    pub continue_parent_on_failure: Option<bool>,
    /// Deduplication key (BullMQ debounce/dedup feature).
    pub deduplication: Option<String>,
}

/// Job options where nothing is set.
pub open spec fn default_job_options() -> JobOptions {
    JobOptions {
        attempts: None,
        backoff: None,
        delay: None,
        job_id: None,
        limit_logs: None,
        lifo: None,
        parent: None,
        priority: None,
        remove_on_complete: None,
        remove_on_fail: None,
        size_limit: None,
        stack_trace_limit: None,
        timestamp: None,
        continue_parent_on_failure: None,
        deduplication: None,
    }
}

impl Default for JobOptions {
    fn default() -> (r: Self)
        ensures
            r == default_job_options(),
    {
        JobOptions {
            attempts: None,
            backoff: None,
            delay: None,
            job_id: None,
            limit_logs: None,
            lifo: None,
            parent: None,
            priority: None,
            remove_on_complete: None,
            remove_on_fail: None,
            size_limit: None,
            stack_trace_limit: None,
            timestamp: None,
            continue_parent_on_failure: None,
            deduplication: None,
        }
    }
}

impl Clone for JobOptions {
    fn clone(&self) -> (r: Self)
        ensures
            r == *self,
    {
        JobOptions {
            attempts: self.attempts,
            backoff: self.backoff,
            delay: self.delay,
            job_id: clone_opt_string(&self.job_id),
            limit_logs: self.limit_logs,
            lifo: self.lifo,
            parent: clone_opt_parent(&self.parent),
            priority: self.priority,
            remove_on_complete: self.remove_on_complete,
            remove_on_fail: self.remove_on_fail,
            size_limit: self.size_limit,
            stack_trace_limit: self.stack_trace_limit,
            timestamp: self.timestamp,
            continue_parent_on_failure: self.continue_parent_on_failure,
            deduplication: clone_opt_string(&self.deduplication),
        }
    }
}

/// Rate-limit configuration: at most `max` jobs per `window`.
#[derive(Debug, Clone, Copy, PartialEq, Eq, Structural)]
pub struct RateLimit {
    /// Maximum number of jobs allowed in `window`.
    pub max: usize,
    /// Sliding window duration.
    pub window: Duration,
}

} // verus!
