//! Waiting for a job's result: what an event of the queue's stream, or an answer of
//! `isFinished`, tells the one who waits for the job.
use vstd::prelude::*;

use crate::commands::IsFinishedOk;
use crate::errors::JobAwaitError;
use crate::events::QueueEvent;

verus! {

/// The text of an optional failure reason; an absent one reads as empty.
pub open spec fn reason_text(reason: Option<String>) -> Seq<char> {
    match reason {
        Some(s) => s@,
        None => Seq::empty(),
    }
}

/// What `event` tells the one who waits for job `job_id`: the job's return value
/// once it completed, its failure (with the reason given, empty when none was)
/// once it failed, and nothing for any other event or any other job.
pub fn event_verdict<R>(event: QueueEvent<R>, job_id: &str) -> (r: Option<Result<R, JobAwaitError>>)
    ensures
        match event {
            QueueEvent::Completed { job_id: eid, return_value, .. } => if eid@ == job_id@ {
                r == Some(Ok::<R, JobAwaitError>(return_value))
            } else {
                r is None
            },
            QueueEvent::Failed { job_id: eid, failed_reason, .. } => if eid@ == job_id@ {
                r matches Some(Err(JobAwaitError::JobFailed { reason })) && reason@ == reason_text(
                    failed_reason,
                )
            } else {
                r is None
            },
            _ => r is None,
        },
{
    let wanted = String::from_str(job_id);
    match event {
        QueueEvent::Completed { job_id: eid, return_value, .. } => {
            if eid == wanted {
                Some(Ok(return_value))
            } else {
                None
            }
        },
        QueueEvent::Failed { job_id: eid, failed_reason, .. } => {
            if eid == wanted {
                let reason = match failed_reason {
                    Some(s) => s,
                    None => String::new(),
                };
                Some(Err(JobAwaitError::JobFailed { reason }))
            } else {
                None
            }
        },
        _ => None,
    }
}

/// What an answer of `isFinished` tells the one who waits: the JSON text of the
/// return value of a completed job (still to be decoded), the failure of a failed
/// or vanished job, or nothing yet, to ask again after the poll interval.
pub fn poll_verdict(answer: IsFinishedOk) -> (r: Option<Result<String, JobAwaitError>>)
    ensures
        match answer {
            IsFinishedOk::Completed(json) => r == Some(Ok::<String, JobAwaitError>(json)),
            IsFinishedOk::Failed(reason) => r matches Some(Err(JobAwaitError::JobFailed { reason: given }))
                && given == reason,
            IsFinishedOk::Missing => r matches Some(Err(JobAwaitError::JobNotFound)),
            IsFinishedOk::NotFinished => r is None,
        },
{
    match answer {
        IsFinishedOk::Completed(json) => Some(Ok(json)),
        IsFinishedOk::Failed(reason) => Some(Err(JobAwaitError::JobFailed { reason })),
        IsFinishedOk::Missing => Some(Err(JobAwaitError::JobNotFound)),
        IsFinishedOk::NotFinished => None,
    }
}

} // verus!
