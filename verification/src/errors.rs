//! Error types for all queue, worker and job operations.
use vstd::prelude::*;

use crate::name::QueueName;
use crate::reply::Reply;

verus! {

/// `serde_json::Error`.
#[verifier::external_type_specification]
#[verifier::external_body]
pub struct ExJsonError(serde_json::Error);

/// `deadpool_redis::PoolError`: failure to obtain a connection from the pool.
#[verifier::external_type_specification]
#[verifier::external_body]
#[verifier::reject_recursive_types(E)]
pub struct ExPoolError<E>(deadpool::managed::PoolError<E>);

/// `croner::errors::CronError`.
#[verifier::external_type_specification]
#[verifier::external_body]
pub struct ExCronError(croner::errors::CronError);

/// Low-level Redis or connection pool error.
#[derive(Debug)]
pub enum BasicRedisError {
    /// Redis command error.
    RedisError(redis::RedisError),
    /// Connection pool error.
    PoolError(deadpool_redis::PoolError),
}

/// Error from pausing or resuming a queue.
#[derive(Debug)]
pub enum PauseResumeError {
    /// Redis command error.
    RedisError(redis::RedisError),
    /// Connection pool error.
    PoolError(deadpool_redis::PoolError),
}

/// Error from the stalled-job recovery process.
#[derive(Debug)]
pub enum MoveStalledToWaitError {
    /// Redis command error.
    RedisError(redis::RedisError),
    /// Connection pool error.
    PoolError(deadpool_redis::PoolError),
}

/// Error from checking whether a job has finished.
#[derive(Debug)]
pub enum IsFinishedError {
    /// Redis command error.
    RedisError(redis::RedisError),
    /// Connection pool error.
    PoolError(deadpool_redis::PoolError),
}

/// Error from adding a job to a queue.
#[derive(Debug)]
pub enum AddJobErr {
    /// Job payload could not be serialized to JSON.
    SerializationFailed(serde_json::Error),
    /// Parent key was expected but missing.
    MissingParentKey,
    /// Scheduler job ID collision.
    SchedulerJobIdCollision,
    /// Scheduler job slots busy.
    SchedulerJobSlotsBusy,
    /// Redis command error.
    RedisError(redis::RedisError),
    /// Connection pool error.
    PoolError(deadpool_redis::PoolError),
}

/// Error from adding a log line to a job.
#[derive(Debug)]
pub enum AddLogError {
    /// The job does not exist (anymore).
    JobNotFound {
        /// Id of the job.
        job_id: String,
        /// Queue of the job.
        queue_name: QueueName,
    },
    /// Redis command error.
    RedisError(redis::RedisError),
    /// Connection pool error.
    PoolError(deadpool_redis::PoolError),
}

/// Error from updating job progress.
#[derive(Debug)]
pub enum UpdateProgressError {
    /// The job does not exist (anymore).
    JobNotFound {
        /// Id of the job.
        job_id: String,
        /// Queue of the job.
        queue_name: QueueName,
    },
    /// Redis command error.
    RedisError(redis::RedisError),
    /// Connection pool error.
    PoolError(deadpool_redis::PoolError),
}

/// Errors from loading job fields out of a Redis hash.
#[derive(Debug)]
pub enum RedisHashMapError {
    /// The field is missing.
    Missing {
        /// Name of the field.
        key: String,
    },
    /// The field is not the JSON expected.
    Deserialize(serde_json::Error),
    /// A timestamp field is out of the representable range.
    TimeStampOutOfRange {
        /// Name of the field.
        key: String,
        /// The value read.
        ts: i64,
    },
}

/// Error from moving a job to the active state.
#[derive(Debug)]
pub enum MoveToActiveErr {
    /// Redis command error.
    RedisError(redis::RedisError),
    /// Connection pool error.
    PoolError(deadpool_redis::PoolError),
    /// Hash map field extraction failed.
    RedisHashMapdisplay(RedisHashMapError),
    /// Value was not valid UTF-8.
    RedisStringInvalid(std::string::FromUtf8Error),
    /// Expected a hash map but got something else.
    UnexpectedRedisValue {
        /// The value received.
        value: Reply,
    },
    /// Timestamp could not be interpreted.
    BadTimestamp {
        /// The value received.
        ts: i64,
    },
}

/// Error from completing or failing a job.
#[derive(Debug)]
pub enum MoveToFinishedErr {
    /// The job has not been found.
    MissingKey,
    /// The job lock doesn't exist (anymore?).
    MissingLock,
    /// The job was not in the active set.
    JobNotActive,
    /// The job has pending children.
    JobHasPendingChildren,
    /// The job lock is owned by another worker.
    LockNotOwned,
    /// The job has failed children.
    JobHasFailedChildren,
    /// Failed to serialize the job result.
    Serialize(serde_json::Error),
    /// Redis command error.
    RedisError(redis::RedisError),
    /// Connection pool error.
    PoolError(deadpool_redis::PoolError),
}

/// Error from obliterating a queue.
#[derive(Debug)]
pub enum ObliterateError {
    /// Jobs are active, use force to overwrite anyways.
    ActiveJobs,
    /// Queue is not paused.
    NotPaused,
    /// Redis command error.
    RedisError(redis::RedisError),
    /// Connection pool error.
    PoolError(deadpool_redis::PoolError),
}

/// Error from adding a job scheduler.
#[derive(Debug)]
pub enum AddJobSchedulerError {
    /// A job with the computed ID already exists and could not be replaced.
    JobIdCollision,
    /// Both the current and next time slot already have existing jobs.
    JobSlotsBusy,
    /// Serialization of job data or options failed.
    SerializationFailed(serde_json::Error),
    /// Redis command error.
    RedisError(redis::RedisError),
    /// Connection pool error.
    PoolError(deadpool_redis::PoolError),
}

/// Error from removing a job scheduler.
#[derive(Debug)]
pub enum RemoveJobSchedulerError {
    /// No scheduler with the given ID exists.
    NotFound,
    /// Redis command error.
    RedisError(redis::RedisError),
    /// Connection pool error.
    PoolError(deadpool_redis::PoolError),
}

/// Error from removing a job.
#[derive(Debug)]
pub enum RemoveJobError {
    /// The job is locked by a worker.
    JobLocked,
    /// The job belongs to a job scheduler and can't be removed on its own.
    IsSchedulerJob,
    /// Redis command error.
    RedisError(redis::RedisError),
    /// Connection pool error.
    PoolError(deadpool_redis::PoolError),
}

/// Error from obtaining a job scheduler.
#[derive(Debug)]
pub enum JobSchedulerError {
    /// Failed to parse the cron pattern stored in Redis.
    CronError {
        /// The parse error.
        error: croner::errors::CronError,
        /// The pattern.
        pattern: String,
    },
    /// Redis command error.
    RedisError(redis::RedisError),
    /// Connection pool error.
    PoolError(deadpool_redis::PoolError),
}

/// Error from awaiting a job's result.
#[derive(Debug)]
pub enum JobAwaitError {
    /// The worker called `failed()` on this job.
    JobFailed {
        /// The reason given.
        reason: String,
    },
    /// The job key no longer exists in Redis.
    JobNotFound,
    /// Return value could not be deserialized from JSON.
    Deserialize(serde_json::Error),
    /// Redis command error.
    RedisError(redis::RedisError),
    /// Connection pool error.
    PoolError(deadpool_redis::PoolError),
}

/// Unified error type for all queue operations.
#[derive(Debug)]
pub enum BullrsError {
    /// Pause or resume failed.
    PauseResume(PauseResumeError),
    /// Adding a job failed.
    AddJob(AddJobErr),
    /// Adding a log entry failed.
    AddLog(AddLogError),
    /// Stalled-job recovery failed.
    MoveStalledToWait(MoveStalledToWaitError),
}

/// Errors of a worker.
#[derive(Debug)]
pub enum WorkerError {
    /// Something happened on the Redis protocol side.
    Redis(redis::RedisError),
    /// The worker terminated due to failure.
    AlreadyTerminated,
    /// The redis connection pool was closed from the outside of the worker.
    PoolClosed,
    /// Some other pool error happened.
    PoolError(deadpool_redis::PoolError),
}

} // verus!
