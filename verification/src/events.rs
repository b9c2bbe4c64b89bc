//! Events a queue announces on its Redis stream.
use vstd::prelude::*;
use vstd::string::*;

use crate::reply::{extract_string, reply_text, Reply};

verus! {

/// An event emitted by a queue via the Redis event stream. `R` is the return value
/// of completed jobs (its JSON text as read from the stream, until decoded).
#[derive(Debug, Clone, PartialEq, Eq)]
pub enum QueueEvent<R> {
    /// Job moved to the waiting list.
    Waiting { job_id: String, prev: Option<String> },
    /// Job picked up by a worker.
    Active { job_id: String, prev: Option<String> },
    /// Job finished successfully.
    Completed { job_id: String, return_value: R, prev: Option<String> },
    /// Job processing failed.
    Failed { job_id: String, failed_reason: Option<String>, prev: Option<String> },
    /// Job scheduled for later execution.
    Delayed { job_id: String, delay: Option<String> },
    /// Job stalled (worker may have crashed).
    Stalled { job_id: String },
    /// Job progress was updated.
    Progress { job_id: String, data: Option<String> },
    /// Job added to the queue.
    Added { job_id: String, name: Option<String> },
    /// Job removed from the queue.
    Removed { job_id: String, prev: Option<String> },
    /// All waiting jobs have been consumed.
    Drained,
    /// Old jobs cleaned from a set.
    Cleaned { count: Option<String> },
    /// Queue was paused.
    Paused,
    /// Queue was resumed.
    Resumed,
    /// Job is waiting for its child jobs to complete.
    WaitingChildren { job_id: String, prev: Option<String> },
    /// Job exhausted all retry attempts.
    RetriesExhausted { job_id: String, attempts_made: Option<String> },
    /// Job was identified as a duplicate.
    Duplicated { job_id: String },
    /// Job was debounced.
    Debounced { job_id: String },
    /// Job was deduplicated.
    Deduplicated { job_id: String },
}

/// An event with every string taken by its text, as contracts speak of it.
pub enum EventView {
    /// Job moved to the waiting list.
    Waiting { job_id: Seq<char>, prev: Option<Seq<char>> },
    /// Job picked up by a worker.
    Active { job_id: Seq<char>, prev: Option<Seq<char>> },
    /// Job finished successfully.
    Completed { job_id: Seq<char>, return_value: Seq<char>, prev: Option<Seq<char>> },
    /// Job processing failed.
    Failed { job_id: Seq<char>, failed_reason: Option<Seq<char>>, prev: Option<Seq<char>> },
    /// Job scheduled for later execution.
    Delayed { job_id: Seq<char>, delay: Option<Seq<char>> },
    /// Job stalled (worker may have crashed).
    Stalled { job_id: Seq<char> },
    /// Job progress was updated.
    Progress { job_id: Seq<char>, data: Option<Seq<char>> },
    /// Job added to the queue.
    Added { job_id: Seq<char>, name: Option<Seq<char>> },
    /// Job removed from the queue.
    Removed { job_id: Seq<char>, prev: Option<Seq<char>> },
    /// All waiting jobs have been consumed.
    Drained,
    /// Old jobs cleaned from a set.
    Cleaned { count: Option<Seq<char>> },
    /// Queue was paused.
    Paused,
    /// Queue was resumed.
    Resumed,
    /// Job is waiting for its child jobs to complete.
    WaitingChildren { job_id: Seq<char>, prev: Option<Seq<char>> },
    /// Job exhausted all retry attempts.
    RetriesExhausted { job_id: Seq<char>, attempts_made: Option<Seq<char>> },
    /// Job was identified as a duplicate.
    Duplicated { job_id: Seq<char> },
    /// Job was debounced.
    Debounced { job_id: Seq<char> },
    /// Job was deduplicated.
    Deduplicated { job_id: Seq<char> },
}

/// The value of `key` among the fields of a stream entry; a later field overrides
/// an earlier one with the same name.
pub open spec fn lookup_reply(fields: Seq<(String, Reply)>, key: Seq<char>) -> Option<Reply>
    decreases fields.len(),
{
    if fields.len() == 0 {
        None
    } else if fields.last().0@ == key {
        Some(fields.last().1)
    } else {
        lookup_reply(fields.drop_last(), key)
    }
}

/// The text of field `key`, when present and a UTF-8 string.
pub open spec fn field_text(fields: Seq<(String, Reply)>, key: Seq<char>) -> Option<Seq<char>> {
    match lookup_reply(fields, key) {
        Some(r) => reply_text(r),
        None => None,
    }
}

/// The text of field `key`, when present and a UTF-8 string.
pub fn field_string(fields: &Vec<(String, Reply)>, key: &str) -> (r: Option<String>)
    ensures
        match (r, field_text(fields@, key@)) {
            (Some(s), Some(t)) => s@ == t,
            (None, None) => true,
            _ => false,
        },
{
    let k = String::from_str(key);
    let mut i: usize = fields.len();
    assert(fields@.take(fields@.len() as int) =~= fields@);
    while i > 0
        invariant
            i <= fields@.len(),
            k@ == key@,
            lookup_reply(fields@, key@) == lookup_reply(fields@.take(i as int), key@),
        decreases i,
    {
        proof {
            assert(fields@.take(i as int).drop_last() =~= fields@.take(i - 1));
            assert(fields@.take(i as int).last() == fields@[i - 1]);
        }
        if fields[i - 1].0 == k {
            return extract_string(&fields[i - 1].1);
        }
        i = i - 1;
    }
    None
}

/// The texts of an optional string.
pub open spec fn opt_view(s: Option<String>) -> Option<Seq<char>> {
    match s {
        Some(t) => Some(t@),
        None => None,
    }
}

/// An event with every string replaced by its text.
pub open spec fn event_view(e: QueueEvent<String>) -> EventView {
    match e {
        QueueEvent::Waiting { job_id, prev } => EventView::Waiting { job_id: job_id@, prev: opt_view(prev) },
        QueueEvent::Active { job_id, prev } => EventView::Active { job_id: job_id@, prev: opt_view(prev) },
        QueueEvent::Completed { job_id, return_value, prev } => EventView::Completed {
            job_id: job_id@,
            return_value: return_value@,
            prev: opt_view(prev),
        },
        QueueEvent::Failed { job_id, failed_reason, prev } => EventView::Failed {
            job_id: job_id@,
            failed_reason: opt_view(failed_reason),
            prev: opt_view(prev),
        },
        QueueEvent::Delayed { job_id, delay } => EventView::Delayed { job_id: job_id@, delay: opt_view(delay) },
        QueueEvent::Stalled { job_id } => EventView::Stalled { job_id: job_id@ },
        QueueEvent::Progress { job_id, data } => EventView::Progress { job_id: job_id@, data: opt_view(data) },
        QueueEvent::Added { job_id, name } => EventView::Added { job_id: job_id@, name: opt_view(name) },
        QueueEvent::Removed { job_id, prev } => EventView::Removed { job_id: job_id@, prev: opt_view(prev) },
        QueueEvent::Drained => EventView::Drained,
        QueueEvent::Cleaned { count } => EventView::Cleaned { count: opt_view(count) },
        QueueEvent::Paused => EventView::Paused,
        QueueEvent::Resumed => EventView::Resumed,
        QueueEvent::WaitingChildren { job_id, prev } => EventView::WaitingChildren {
            job_id: job_id@,
            prev: opt_view(prev),
        },
        QueueEvent::RetriesExhausted { job_id, attempts_made } => EventView::RetriesExhausted {
            job_id: job_id@,
            attempts_made: opt_view(attempts_made),
        },
        QueueEvent::Duplicated { job_id } => EventView::Duplicated { job_id: job_id@ },
        QueueEvent::Debounced { job_id } => EventView::Debounced { job_id: job_id@ },
        QueueEvent::Deduplicated { job_id } => EventView::Deduplicated { job_id: job_id@ },
    }
}

/// The events about the whole queue, by name, with the fields they read; `None`
/// for any other name.
pub open spec fn queue_wide_event(name: Seq<char>, f: Seq<(String, Reply)>) -> Option<EventView> {
    if name == "drained"@ {
        Some(EventView::Drained)
    } else if name == "cleaned"@ {
        Some(EventView::Cleaned { count: field_text(f, "count"@) })
    } else if name == "paused"@ {
        Some(EventView::Paused)
    } else if name == "resumed"@ {
        Some(EventView::Resumed)
    } else {
        None
    }
}

/// The events about job `j`, by name, with the fields they read; `None` for a name
/// of no job event, and for `completed` without a `returnvalue`.
pub open spec fn job_event(name: Seq<char>, j: Seq<char>, f: Seq<(String, Reply)>) -> Option<EventView> {
    let prev = field_text(f, "prev"@);
    if name == "waiting"@ {
        Some(EventView::Waiting { job_id: j, prev })
    } else if name == "active"@ {
        Some(EventView::Active { job_id: j, prev })
    } else if name == "completed"@ {
        match field_text(f, "returnvalue"@) {
            Some(rv) => Some(EventView::Completed { job_id: j, return_value: rv, prev }),
            None => None,
        }
    } else if name == "failed"@ {
        Some(EventView::Failed { job_id: j, failed_reason: field_text(f, "failedReason"@), prev })
    } else if name == "delayed"@ {
        Some(EventView::Delayed { job_id: j, delay: field_text(f, "delay"@) })
    } else if name == "stalled"@ {
        Some(EventView::Stalled { job_id: j })
    } else if name == "progress"@ {
        Some(EventView::Progress { job_id: j, data: field_text(f, "data"@) })
    } else if name == "added"@ {
        Some(EventView::Added { job_id: j, name: field_text(f, "name"@) })
    } else if name == "removed"@ {
        Some(EventView::Removed { job_id: j, prev })
    } else if name == "waiting-children"@ {
        Some(EventView::WaitingChildren { job_id: j, prev })
    } else if name == "retries-exhausted"@ {
        Some(EventView::RetriesExhausted { job_id: j, attempts_made: field_text(f, "attemptsMade"@) })
    } else if name == "duplicated"@ {
        Some(EventView::Duplicated { job_id: j })
    } else if name == "debounced"@ {
        Some(EventView::Debounced { job_id: j })
    } else if name == "deduplicated"@ {
        Some(EventView::Deduplicated { job_id: j })
    } else {
        None
    }
}

/// The event a stream entry describes: its `event` field names it; an event about
/// the whole queue stands alone, an event about a job needs the `jobId`; unknown
/// names are dropped.
pub open spec fn event_spec(f: Seq<(String, Reply)>) -> Option<EventView> {
    match field_text(f, "event"@) {
        None => None,
        Some(name) => match queue_wide_event(name, f) {
            Some(e) => Some(e),
            None => match field_text(f, "jobId"@) {
                Some(j) => job_event(name, j, f),
                None => None,
            },
        },
    }
}

/// The event `e` with the return value of a completed job replaced by `parsed`;
/// a completed job whose value could not be decoded gives no event.
pub open spec fn decoded_event<R>(e: QueueEvent<String>, parsed: Option<R>) -> Option<QueueEvent<R>> {
    match e {
        QueueEvent::Waiting { job_id, prev } => Some(QueueEvent::Waiting { job_id, prev }),
        QueueEvent::Active { job_id, prev } => Some(QueueEvent::Active { job_id, prev }),
        QueueEvent::Completed { job_id, prev, .. } => match parsed {
            Some(return_value) => Some(QueueEvent::Completed { job_id, return_value, prev }),
            None => None,
        },
        QueueEvent::Failed { job_id, failed_reason, prev } => Some(QueueEvent::Failed { job_id, failed_reason, prev }),
        QueueEvent::Delayed { job_id, delay } => Some(QueueEvent::Delayed { job_id, delay }),
        QueueEvent::Stalled { job_id } => Some(QueueEvent::Stalled { job_id }),
        QueueEvent::Progress { job_id, data } => Some(QueueEvent::Progress { job_id, data }),
        QueueEvent::Added { job_id, name } => Some(QueueEvent::Added { job_id, name }),
        QueueEvent::Removed { job_id, prev } => Some(QueueEvent::Removed { job_id, prev }),
        QueueEvent::Drained => Some(QueueEvent::Drained),
        QueueEvent::Cleaned { count } => Some(QueueEvent::Cleaned { count }),
        QueueEvent::Paused => Some(QueueEvent::Paused),
        QueueEvent::Resumed => Some(QueueEvent::Resumed),
        QueueEvent::WaitingChildren { job_id, prev } => Some(QueueEvent::WaitingChildren { job_id, prev }),
        QueueEvent::RetriesExhausted { job_id, attempts_made } => Some(QueueEvent::RetriesExhausted { job_id, attempts_made }),
        QueueEvent::Duplicated { job_id } => Some(QueueEvent::Duplicated { job_id }),
        QueueEvent::Debounced { job_id } => Some(QueueEvent::Debounced { job_id }),
        QueueEvent::Deduplicated { job_id } => Some(QueueEvent::Deduplicated { job_id }),
    }
}

/// Events about the whole queue are told apart by the name in their `event`
/// field, as BullMQ names them: `drained`, `cleaned` (with its `count`), `paused`
/// and `resumed`, whatever else the entry holds.
pub proof fn lemma_queue_events_by_name(f: Seq<(String, Reply)>, r: Option<QueueEvent<String>>)
    requires
        match (r, event_spec(f)) {
            (Some(e), Some(v)) => event_view(e) == v,
            (None, None) => true,
            _ => false,
        },
    ensures
        field_text(f, "event"@) == Some("drained"@) ==> (r == Some(QueueEvent::<String>::Drained)),
        field_text(f, "event"@) == Some("cleaned"@) ==> (r matches Some(QueueEvent::Cleaned { count }) && opt_view(count) == field_text(f, "count"@)),
        field_text(f, "event"@) == Some("paused"@) ==> (r == Some(QueueEvent::<String>::Paused)),
        field_text(f, "event"@) == Some("resumed"@) ==> (r == Some(QueueEvent::<String>::Resumed)),
{
    reveal_strlit("drained");
    reveal_strlit("cleaned");
    reveal_strlit("paused");
    reveal_strlit("resumed");
    reveal_strlit("waiting");
    reveal_strlit("active");
    reveal_strlit("failed");
    reveal_strlit("delayed");
    reveal_strlit("stalled");
    reveal_strlit("progress");
    reveal_strlit("added");
    reveal_strlit("removed");
    reveal_strlit("waiting-children");
    reveal_strlit("retries-exhausted");
    reveal_strlit("duplicated");
    reveal_strlit("debounced");
    reveal_strlit("deduplicated");
    reveal_strlit("completed");
    assert("drained"@.len() == 7 && "drained"@[0] == 'd' && "drained"@[1] == 'r' && "drained"@[2] == 'a');
    assert("cleaned"@.len() == 7 && "cleaned"@[0] == 'c' && "cleaned"@[1] == 'l' && "cleaned"@[2] == 'e');
    assert("paused"@.len() == 6 && "paused"@[0] == 'p' && "paused"@[1] == 'a' && "paused"@[2] == 'u');
    assert("resumed"@.len() == 7 && "resumed"@[0] == 'r' && "resumed"@[1] == 'e' && "resumed"@[2] == 's');
    assert("waiting"@.len() == 7 && "waiting"@[0] == 'w' && "waiting"@[1] == 'a' && "waiting"@[2] == 'i');
    assert("active"@.len() == 6 && "active"@[0] == 'a' && "active"@[1] == 'c' && "active"@[2] == 't');
    assert("failed"@.len() == 6 && "failed"@[0] == 'f' && "failed"@[1] == 'a' && "failed"@[2] == 'i');
    assert("delayed"@.len() == 7 && "delayed"@[0] == 'd' && "delayed"@[1] == 'e' && "delayed"@[2] == 'l');
    assert("stalled"@.len() == 7 && "stalled"@[0] == 's' && "stalled"@[1] == 't' && "stalled"@[2] == 'a');
    assert("progress"@.len() == 8 && "progress"@[0] == 'p' && "progress"@[1] == 'r' && "progress"@[2] == 'o');
    assert("added"@.len() == 5 && "added"@[0] == 'a' && "added"@[1] == 'd' && "added"@[2] == 'd');
    assert("removed"@.len() == 7 && "removed"@[0] == 'r' && "removed"@[1] == 'e' && "removed"@[2] == 'm');
    assert("waiting-children"@.len() == 16 && "waiting-children"@[0] == 'w' && "waiting-children"@[1] == 'a' && "waiting-children"@[2] == 'i');
    assert("retries-exhausted"@.len() == 17 && "retries-exhausted"@[0] == 'r' && "retries-exhausted"@[1] == 'e' && "retries-exhausted"@[2] == 't');
    assert("duplicated"@.len() == 10 && "duplicated"@[0] == 'd' && "duplicated"@[1] == 'u' && "duplicated"@[2] == 'p');
    assert("debounced"@.len() == 9 && "debounced"@[0] == 'd' && "debounced"@[1] == 'e' && "debounced"@[2] == 'b');
    assert("deduplicated"@.len() == 12 && "deduplicated"@[0] == 'd' && "deduplicated"@[1] == 'e' && "deduplicated"@[2] == 'd');
    assert("completed"@.len() == 9 && "completed"@[0] == 'c' && "completed"@[1] == 'o' && "completed"@[2] == 'm');
}

/// An event about a job, with a `jobId`, is the event its `event` field names, as
/// BullMQ names them (`waiting`, `active`, `completed`, `failed`, ...), about that
/// job, with the fields that event reads; a completed job's event carries its
/// `returnvalue`.
pub proof fn lemma_job_events_by_name(f: Seq<(String, Reply)>, r: Option<QueueEvent<String>>, j: Seq<char>)
    requires
        match (r, event_spec(f)) {
            (Some(e), Some(v)) => event_view(e) == v,
            (None, None) => true,
            _ => false,
        },
        field_text(f, "jobId"@) == Some(j),
    ensures
        field_text(f, "event"@) == Some("waiting"@) ==> (r matches Some(QueueEvent::Waiting { job_id, prev }) && job_id@ == j && opt_view(prev) == field_text(f, "prev"@)),
        field_text(f, "event"@) == Some("active"@) ==> (r matches Some(QueueEvent::Active { job_id, prev }) && job_id@ == j && opt_view(prev) == field_text(f, "prev"@)),
        field_text(f, "event"@) == Some("failed"@) ==> (r matches Some(QueueEvent::Failed { job_id, failed_reason, prev }) && job_id@ == j && opt_view(failed_reason) == field_text(f, "failedReason"@) && opt_view(prev) == field_text(f, "prev"@)),
        field_text(f, "event"@) == Some("delayed"@) ==> (r matches Some(QueueEvent::Delayed { job_id, delay }) && job_id@ == j && opt_view(delay) == field_text(f, "delay"@)),
        field_text(f, "event"@) == Some("stalled"@) ==> (r matches Some(QueueEvent::Stalled { job_id }) && job_id@ == j),
        field_text(f, "event"@) == Some("progress"@) ==> (r matches Some(QueueEvent::Progress { job_id, data }) && job_id@ == j && opt_view(data) == field_text(f, "data"@)),
        field_text(f, "event"@) == Some("added"@) ==> (r matches Some(QueueEvent::Added { job_id, name }) && job_id@ == j && opt_view(name) == field_text(f, "name"@)),
        field_text(f, "event"@) == Some("removed"@) ==> (r matches Some(QueueEvent::Removed { job_id, prev }) && job_id@ == j && opt_view(prev) == field_text(f, "prev"@)),
        field_text(f, "event"@) == Some("waiting-children"@) ==> (r matches Some(QueueEvent::WaitingChildren { job_id, prev }) && job_id@ == j && opt_view(prev) == field_text(f, "prev"@)),
        field_text(f, "event"@) == Some("retries-exhausted"@) ==> (r matches Some(QueueEvent::RetriesExhausted { job_id, attempts_made }) && job_id@ == j && opt_view(attempts_made) == field_text(f, "attemptsMade"@)),
        field_text(f, "event"@) == Some("duplicated"@) ==> (r matches Some(QueueEvent::Duplicated { job_id }) && job_id@ == j),
        field_text(f, "event"@) == Some("debounced"@) ==> (r matches Some(QueueEvent::Debounced { job_id }) && job_id@ == j),
        field_text(f, "event"@) == Some("deduplicated"@) ==> (r matches Some(QueueEvent::Deduplicated { job_id }) && job_id@ == j),
        field_text(f, "event"@) == Some("completed"@) ==> (field_text(f, "returnvalue"@) matches Some(rv) ==> (r matches Some(QueueEvent::Completed { job_id, return_value, prev }) && job_id@ == j && return_value@ == rv && opt_view(prev) == field_text(f, "prev"@))),
        field_text(f, "event"@) == Some("completed"@) ==> (field_text(f, "returnvalue"@) is None ==> r is None),
{
    reveal_strlit("drained");
    reveal_strlit("cleaned");
    reveal_strlit("paused");
    reveal_strlit("resumed");
    reveal_strlit("waiting");
    reveal_strlit("active");
    reveal_strlit("failed");
    reveal_strlit("delayed");
    reveal_strlit("stalled");
    reveal_strlit("progress");
    reveal_strlit("added");
    reveal_strlit("removed");
    reveal_strlit("waiting-children");
    reveal_strlit("retries-exhausted");
    reveal_strlit("duplicated");
    reveal_strlit("debounced");
    reveal_strlit("deduplicated");
    reveal_strlit("completed");
    assert("drained"@.len() == 7 && "drained"@[0] == 'd' && "drained"@[1] == 'r' && "drained"@[2] == 'a');
    assert("cleaned"@.len() == 7 && "cleaned"@[0] == 'c' && "cleaned"@[1] == 'l' && "cleaned"@[2] == 'e');
    assert("paused"@.len() == 6 && "paused"@[0] == 'p' && "paused"@[1] == 'a' && "paused"@[2] == 'u');
    assert("resumed"@.len() == 7 && "resumed"@[0] == 'r' && "resumed"@[1] == 'e' && "resumed"@[2] == 's');
    assert("waiting"@.len() == 7 && "waiting"@[0] == 'w' && "waiting"@[1] == 'a' && "waiting"@[2] == 'i');
    assert("active"@.len() == 6 && "active"@[0] == 'a' && "active"@[1] == 'c' && "active"@[2] == 't');
    assert("failed"@.len() == 6 && "failed"@[0] == 'f' && "failed"@[1] == 'a' && "failed"@[2] == 'i');
    assert("delayed"@.len() == 7 && "delayed"@[0] == 'd' && "delayed"@[1] == 'e' && "delayed"@[2] == 'l');
    assert("stalled"@.len() == 7 && "stalled"@[0] == 's' && "stalled"@[1] == 't' && "stalled"@[2] == 'a');
    assert("progress"@.len() == 8 && "progress"@[0] == 'p' && "progress"@[1] == 'r' && "progress"@[2] == 'o');
    assert("added"@.len() == 5 && "added"@[0] == 'a' && "added"@[1] == 'd' && "added"@[2] == 'd');
    assert("removed"@.len() == 7 && "removed"@[0] == 'r' && "removed"@[1] == 'e' && "removed"@[2] == 'm');
    assert("waiting-children"@.len() == 16 && "waiting-children"@[0] == 'w' && "waiting-children"@[1] == 'a' && "waiting-children"@[2] == 'i');
    assert("retries-exhausted"@.len() == 17 && "retries-exhausted"@[0] == 'r' && "retries-exhausted"@[1] == 'e' && "retries-exhausted"@[2] == 't');
    assert("duplicated"@.len() == 10 && "duplicated"@[0] == 'd' && "duplicated"@[1] == 'u' && "duplicated"@[2] == 'p');
    assert("debounced"@.len() == 9 && "debounced"@[0] == 'd' && "debounced"@[1] == 'e' && "debounced"@[2] == 'b');
    assert("deduplicated"@.len() == 12 && "deduplicated"@[0] == 'd' && "deduplicated"@[1] == 'e' && "deduplicated"@[2] == 'd');
    assert("completed"@.len() == 9 && "completed"@[0] == 'c' && "completed"@[1] == 'o' && "completed"@[2] == 'm');
}

fn is(s: &String, lit: &str) -> (r: bool)
    ensures
        r == (s@ == lit@),
{
    *s == String::from_str(lit)
}

impl QueueEvent<String> {
    /// Parse the fields of a stream entry into an event; the return value of a
    /// completed job stays JSON text.
    pub fn parse(fields: &Vec<(String, Reply)>) -> (r: Option<QueueEvent<String>>)
        ensures
            match (r, event_spec(fields@)) {
                (Some(e), Some(v)) => event_view(e) == v,
                (None, None) => true,
                _ => false,
            },
    {
        let event = match field_string(fields, "event") {
            Some(e) => e,
            None => return None,
        };
        if is(&event, "drained") {
            return Some(QueueEvent::Drained);
        } else if is(&event, "cleaned") {
            return Some(QueueEvent::Cleaned { count: field_string(fields, "count") });
        } else if is(&event, "paused") {
            return Some(QueueEvent::Paused);
        } else if is(&event, "resumed") {
            return Some(QueueEvent::Resumed);
        }
        let job_id = match field_string(fields, "jobId") {
            Some(j) => j,
            None => return None,
        };
        let prev = field_string(fields, "prev");
        if is(&event, "waiting") {
            Some(QueueEvent::Waiting { job_id, prev })
        } else if is(&event, "active") {
            Some(QueueEvent::Active { job_id, prev })
        } else if is(&event, "completed") {
            match field_string(fields, "returnvalue") {
                Some(return_value) => Some(QueueEvent::Completed { job_id, return_value, prev }),
                None => None,
            }
        } else if is(&event, "failed") {
            Some(QueueEvent::Failed { job_id, failed_reason: field_string(fields, "failedReason"), prev })
        } else if is(&event, "delayed") {
            Some(QueueEvent::Delayed { job_id, delay: field_string(fields, "delay") })
        } else if is(&event, "stalled") {
            Some(QueueEvent::Stalled { job_id })
        } else if is(&event, "progress") {
            Some(QueueEvent::Progress { job_id, data: field_string(fields, "data") })
        } else if is(&event, "added") {
            Some(QueueEvent::Added { job_id, name: field_string(fields, "name") })
        } else if is(&event, "removed") {
            Some(QueueEvent::Removed { job_id, prev })
        } else if is(&event, "waiting-children") {
            Some(QueueEvent::WaitingChildren { job_id, prev })
        } else if is(&event, "retries-exhausted") {
            Some(QueueEvent::RetriesExhausted { job_id, attempts_made: field_string(fields, "attemptsMade") })
        } else if is(&event, "duplicated") {
            Some(QueueEvent::Duplicated { job_id })
        } else if is(&event, "debounced") {
            Some(QueueEvent::Debounced { job_id })
        } else if is(&event, "deduplicated") {
            Some(QueueEvent::Deduplicated { job_id })
        } else {
            None
        }
    }

    /// The event with the return value of a completed job decoded: `parsed` is the
    /// decoded value (`None` when it could not be decoded, which drops the event).
    /// Other events carry over unchanged.
    pub fn with_return_value<R>(self, parsed: Option<R>) -> (r: Option<QueueEvent<R>>)
        ensures
            r == decoded_event(self, parsed),
    {
        match self {
            QueueEvent::Waiting { job_id, prev } => Some(QueueEvent::Waiting { job_id, prev }),
            QueueEvent::Active { job_id, prev } => Some(QueueEvent::Active { job_id, prev }),
            QueueEvent::Completed { job_id, prev, .. } => match parsed {
                Some(return_value) => Some(QueueEvent::Completed { job_id, return_value, prev }),
                None => None,
            },
            QueueEvent::Failed { job_id, failed_reason, prev } => Some(QueueEvent::Failed { job_id, failed_reason, prev }),
            QueueEvent::Delayed { job_id, delay } => Some(QueueEvent::Delayed { job_id, delay }),
            QueueEvent::Stalled { job_id } => Some(QueueEvent::Stalled { job_id }),
            QueueEvent::Progress { job_id, data } => Some(QueueEvent::Progress { job_id, data }),
            QueueEvent::Added { job_id, name } => Some(QueueEvent::Added { job_id, name }),
            QueueEvent::Removed { job_id, prev } => Some(QueueEvent::Removed { job_id, prev }),
            QueueEvent::Drained => Some(QueueEvent::Drained),
            QueueEvent::Cleaned { count } => Some(QueueEvent::Cleaned { count }),
            QueueEvent::Paused => Some(QueueEvent::Paused),
            QueueEvent::Resumed => Some(QueueEvent::Resumed),
            QueueEvent::WaitingChildren { job_id, prev } => Some(QueueEvent::WaitingChildren { job_id, prev }),
            QueueEvent::RetriesExhausted { job_id, attempts_made } => Some(QueueEvent::RetriesExhausted { job_id, attempts_made }),
            QueueEvent::Duplicated { job_id } => Some(QueueEvent::Duplicated { job_id }),
            QueueEvent::Debounced { job_id } => Some(QueueEvent::Debounced { job_id }),
            QueueEvent::Deduplicated { job_id } => Some(QueueEvent::Deduplicated { job_id }),
        }
    }
}

} // verus!
