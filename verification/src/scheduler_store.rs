//! How job schedulers are stored in Redis: the scripts that add, update and read
//! them, and what a worker does with a scheduler once its job finished.
use vstd::prelude::*;
use vstd::string::*;

use crate::commands::qk;
use crate::errors::{AddJobSchedulerError, JobSchedulerError};
use crate::ids::SchedulerId;
use crate::name::QueueName;
use crate::options::JobOptions;
use crate::reply::{string_from_utf8_lossy, unexpected_response, utf8_lossy, Reply};
use crate::scheduler::{
    compute_cron_next_millis, cron_next_occurrence, is_wire_scheduler, cron_pattern_accepted,
    tz_name_known, CronNextError, CronPattern, Repeat, SchedulerInfo, SchedulerTemplate,
    SchedulerWindow, Timezone,
};
use crate::number::{parse_i64, parse_i64_spec, parse_u64, parse_u64_spec};
use crate::script::{is_text, texts, InvokeLuaScript, Script, ScriptArg, ScriptCall};
use crate::time::{chrono_millis_in_range, Duration, Timestamp};
use crate::wire::{wire_job_options_of, WireJobOptions, WireSchedulerOpts};

verus! {

/// The fields of a scheduler hash, as far as they are read.
pub struct SchedFields {
    /// `name`
    pub name: Option<Seq<char>>,
    /// `tz`
    pub tz: Option<Seq<char>>,
    /// `pattern`, a pattern croner accepts.
    pub pattern: Option<Seq<char>>,
    /// `every`
    pub every: Option<u64>,
    /// `offset`
    pub offset: Option<i64>,
    /// `startDate`
    pub start: Option<i64>,
    /// `endDate`
    pub end: Option<i64>,
    /// `limit`
    pub limit: Option<u64>,
    /// `ic`, the iteration count.
    pub ic: Option<u64>,
}

/// No field read yet.
pub open spec fn no_sched_fields() -> SchedFields {
    SchedFields {
        name: None,
        tz: None,
        pattern: None,
        every: None,
        offset: None,
        start: None,
        end: None,
        limit: None,
        ic: None,
    }
}

/// Reading field `k` with value `v`: the later of two equal fields wins, numbers
/// that do not parse count as absent, an unknown field is ignored, and a pattern
/// croner refuses is an error (the pattern).
pub open spec fn sched_step(acc: SchedFields, k: Seq<char>, v: Seq<char>) -> Result<SchedFields, Seq<char>> {
    if k == "name"@ {
        Ok(SchedFields { name: Some(v), ..acc })
    } else if k == "tz"@ {
        Ok(SchedFields { tz: Some(v), ..acc })
    } else if k == "pattern"@ {
        if cron_pattern_accepted(v) {
            Ok(SchedFields { pattern: Some(v), ..acc })
        } else {
            Err(v)
        }
    } else if k == "every"@ {
        Ok(SchedFields { every: parse_u64_spec(v), ..acc })
    } else if k == "offset"@ {
        Ok(SchedFields { offset: parse_i64_spec(v), ..acc })
    } else if k == "startDate"@ {
        Ok(SchedFields { start: parse_i64_spec(v), ..acc })
    } else if k == "endDate"@ {
        Ok(SchedFields { end: parse_i64_spec(v), ..acc })
    } else if k == "limit"@ {
        Ok(SchedFields { limit: parse_u64_spec(v), ..acc })
    } else if k == "ic"@ {
        Ok(SchedFields { ic: parse_u64_spec(v), ..acc })
    } else {
        Ok(acc)
    }
}

/// The fields of a scheduler hash are read under BullMQ's names: `name`, `tz`,
/// `pattern`, `every`, `offset`, `startDate`, `endDate`, `limit` and `ic` each set
/// their own field (a pattern only when croner accepts it) and leave the others as
/// they were.
pub proof fn lemma_sched_field_names(acc: SchedFields, v: Seq<char>)
    ensures
        sched_step(acc, "name"@, v) == Ok::<SchedFields, Seq<char>>(
            SchedFields { name: Some(v), ..acc },
        ),
        sched_step(acc, "tz"@, v) == Ok::<SchedFields, Seq<char>>(SchedFields { tz: Some(v), ..acc }),
        cron_pattern_accepted(v) ==> sched_step(acc, "pattern"@, v) == Ok::<SchedFields, Seq<char>>(
            SchedFields { pattern: Some(v), ..acc },
        ),
        !cron_pattern_accepted(v) ==> sched_step(acc, "pattern"@, v) == Err::<SchedFields, Seq<char>>(v),
        sched_step(acc, "every"@, v) == Ok::<SchedFields, Seq<char>>(
            SchedFields { every: parse_u64_spec(v), ..acc },
        ),
        sched_step(acc, "offset"@, v) == Ok::<SchedFields, Seq<char>>(
            SchedFields { offset: parse_i64_spec(v), ..acc },
        ),
        sched_step(acc, "startDate"@, v) == Ok::<SchedFields, Seq<char>>(
            SchedFields { start: parse_i64_spec(v), ..acc },
        ),
        sched_step(acc, "endDate"@, v) == Ok::<SchedFields, Seq<char>>(
            SchedFields { end: parse_i64_spec(v), ..acc },
        ),
        sched_step(acc, "limit"@, v) == Ok::<SchedFields, Seq<char>>(
            SchedFields { limit: parse_u64_spec(v), ..acc },
        ),
        sched_step(acc, "ic"@, v) == Ok::<SchedFields, Seq<char>>(SchedFields { ic: parse_u64_spec(v), ..acc }),
{
    reveal_strlit("name");
    reveal_strlit("tz");
    reveal_strlit("pattern");
    reveal_strlit("every");
    reveal_strlit("offset");
    reveal_strlit("startDate");
    reveal_strlit("endDate");
    reveal_strlit("limit");
    reveal_strlit("ic");
    assert("tz"@ != "name"@) by {
        assert("tz"@.len() != "name"@.len());
    }
    assert("pattern"@ != "name"@) by {
        assert("pattern"@.len() != "name"@.len());
    }
    assert("pattern"@ != "tz"@) by {
        assert("pattern"@.len() != "tz"@.len());
    }
    assert("every"@ != "name"@) by {
        assert("every"@.len() != "name"@.len());
    }
    assert("every"@ != "tz"@) by {
        assert("every"@.len() != "tz"@.len());
    }
    assert("every"@ != "pattern"@) by {
        assert("every"@.len() != "pattern"@.len());
    }
    assert("offset"@ != "name"@) by {
        assert("offset"@.len() != "name"@.len());
    }
    assert("offset"@ != "tz"@) by {
        assert("offset"@.len() != "tz"@.len());
    }
    assert("offset"@ != "pattern"@) by {
        assert("offset"@.len() != "pattern"@.len());
    }
    assert("offset"@ != "every"@) by {
        assert("offset"@.len() != "every"@.len());
    }
    assert("startDate"@ != "name"@) by {
        assert("startDate"@.len() != "name"@.len());
    }
    assert("startDate"@ != "tz"@) by {
        assert("startDate"@.len() != "tz"@.len());
    }
    assert("startDate"@ != "pattern"@) by {
        assert("startDate"@.len() != "pattern"@.len());
    }
    assert("startDate"@ != "every"@) by {
        assert("startDate"@.len() != "every"@.len());
    }
    assert("startDate"@ != "offset"@) by {
        assert("startDate"@.len() != "offset"@.len());
    }
    assert("endDate"@ != "name"@) by {
        assert("endDate"@.len() != "name"@.len());
    }
    assert("endDate"@ != "tz"@) by {
        assert("endDate"@.len() != "tz"@.len());
    }
    assert("endDate"@ != "pattern"@) by {
        assert("endDate"@[0] != "pattern"@[0]);
    }
    assert("endDate"@ != "every"@) by {
        assert("endDate"@.len() != "every"@.len());
    }
    assert("endDate"@ != "offset"@) by {
        assert("endDate"@.len() != "offset"@.len());
    }
    assert("endDate"@ != "startDate"@) by {
        assert("endDate"@.len() != "startDate"@.len());
    }
    assert("limit"@ != "name"@) by {
        assert("limit"@.len() != "name"@.len());
    }
    assert("limit"@ != "tz"@) by {
        assert("limit"@.len() != "tz"@.len());
    }
    assert("limit"@ != "pattern"@) by {
        assert("limit"@.len() != "pattern"@.len());
    }
    assert("limit"@ != "every"@) by {
        assert("limit"@[0] != "every"@[0]);
    }
    assert("limit"@ != "offset"@) by {
        assert("limit"@.len() != "offset"@.len());
    }
    assert("limit"@ != "startDate"@) by {
        assert("limit"@.len() != "startDate"@.len());
    }
    assert("limit"@ != "endDate"@) by {
        assert("limit"@.len() != "endDate"@.len());
    }
    assert("ic"@ != "name"@) by {
        assert("ic"@.len() != "name"@.len());
    }
    assert("ic"@ != "tz"@) by {
        assert("ic"@[0] != "tz"@[0]);
    }
    assert("ic"@ != "pattern"@) by {
        assert("ic"@.len() != "pattern"@.len());
    }
    assert("ic"@ != "every"@) by {
        assert("ic"@.len() != "every"@.len());
    }
    assert("ic"@ != "offset"@) by {
        assert("ic"@.len() != "offset"@.len());
    }
    assert("ic"@ != "startDate"@) by {
        assert("ic"@.len() != "startDate"@.len());
    }
    assert("ic"@ != "endDate"@) by {
        assert("ic"@.len() != "endDate"@.len());
    }
    assert("ic"@ != "limit"@) by {
        assert("ic"@.len() != "limit"@.len());
    }
}

/// Reading the flat key/value array `items` from position `i` on, as long as both
/// key and value are bulk strings (their text, invalid UTF-8 replaced).
pub open spec fn sched_fields_from(items: Seq<Reply>, i: nat, acc: SchedFields) -> Result<
    SchedFields,
    Seq<char>,
>
    decreases items.len() - i,
{
    if i + 1 < items.len() {
        match (items[i as int], items[i + 1 as int]) {
            (Reply::BulkString(k), Reply::BulkString(v)) => match sched_step(
                acc,
                utf8_lossy(k@),
                utf8_lossy(v@),
            ) {
                Ok(a) => sched_fields_from(items, i + 2, a),
                Err(p) => Err(p),
            },
            _ => Ok(acc),
        }
    } else {
        Ok(acc)
    }
}

/// A hash holding one field reads as that one field: reading the pair of bulk
/// strings `k`, `v` is the step for the texts of `k` and `v`; an empty hash reads as
/// no field.
pub proof fn lemma_sched_fields_single(k: Vec<u8>, v: Vec<u8>, acc: SchedFields)
    ensures
        sched_fields_from(seq![Reply::BulkString(k), Reply::BulkString(v)], 0, acc) == sched_step(
            acc,
            utf8_lossy(k@),
            utf8_lossy(v@),
        ),
        sched_fields_from(Seq::<Reply>::empty(), 0, acc) == Ok::<SchedFields, Seq<char>>(acc),
{
    let items = seq![Reply::BulkString(k), Reply::BulkString(v)];
    assert(items[0] == Reply::BulkString(k));
    assert(items[1] == Reply::BulkString(v));
    reveal_with_fuel(sched_fields_from, 2);
}

/// The fields read so far.
struct SchedAcc {
    name: Option<String>,
    tz: Option<String>,
    pattern: Option<CronPattern>,
    every: Option<u64>,
    offset: Option<i64>,
    start: Option<i64>,
    end: Option<i64>,
    limit: Option<u64>,
    ic: Option<u64>,
}

/// The text of an optional string.
pub open spec fn opt_text(s: Option<String>) -> Option<Seq<char>> {
    match s {
        Some(t) => Some(t@),
        None => None,
    }
}

spec fn acc_view(a: SchedAcc) -> SchedFields {
    SchedFields {
        name: opt_text(a.name),
        tz: opt_text(a.tz),
        pattern: match a.pattern {
            Some(p) => Some(p@),
            None => None,
        },
        every: a.every,
        offset: a.offset,
        start: a.start,
        end: a.end,
        limit: a.limit,
        ic: a.ic,
    }
}

fn apply_scheduler_field(acc: &mut SchedAcc, k: String, v: String) -> (r: Result<
    (),
    (croner::errors::CronError, String),
>)
    ensures
        match (r, sched_step(acc_view(*old(acc)), k@, v@)) {
            (Ok(_), Ok(f)) => acc_view(*final(acc)) == f,
            (Err(e), Err(p)) => e.1@ == p,
            _ => false,
        },
{
    if k == String::from_str("name") {
        acc.name = Some(v);
    } else if k == String::from_str("tz") {
        acc.tz = Some(v);
    } else if k == String::from_str("pattern") {
        match CronPattern::parse(v.as_str()) {
            Ok(p) => {
                acc.pattern = Some(p);
            },
            Err(e) => {
                return Err((e, v));
            },
        }
    } else if k == String::from_str("every") {
        acc.every = parse_u64(v.as_str());
    } else if k == String::from_str("offset") {
        acc.offset = parse_i64(v.as_str());
    } else if k == String::from_str("startDate") {
        acc.start = parse_i64(v.as_str());
    } else if k == String::from_str("endDate") {
        acc.end = parse_i64(v.as_str());
    } else if k == String::from_str("limit") {
        acc.limit = parse_u64(v.as_str());
    } else if k == String::from_str("ic") {
        acc.ic = parse_u64(v.as_str());
    }
    Ok(())
}

/// The score of a scheduler in the `repeat` set as the script returns it: an integer,
/// or a decimal text (`0` when it does not parse).
pub open spec fn sched_score(r: Reply) -> Option<i64> {
    match r {
        Reply::Int(s) => Some(s),
        Reply::BulkString(b) => Some(
            match parse_i64_spec(utf8_lossy(b@)) {
                Some(v) => v,
                None => 0,
            },
        ),
        _ => None,
    }
}

/// The instant of an optional bound, dropped when chrono can't represent it.
pub open spec fn bound_of(ms: Option<i64>) -> Option<i64> {
    match ms {
        Some(v) => if chrono_millis_in_range(v) {
            Some(v)
        } else {
            None
        },
        None => None,
    }
}

/// Whether an optional timestamp is the bound `b`.
pub open spec fn is_bound(t: Option<Timestamp>, b: Option<i64>) -> bool {
    match (t, b) {
        (Some(t), Some(v)) => t@ == v && t.wf(),
        (None, None) => true,
        _ => false,
    }
}

/// Whether `info` is the scheduler `id` with fields `f` due at `score`: an interval
/// wins over a pattern, a negative offset counts as zero, an unknown time zone is
/// dropped, unrepresentable bounds are dropped and an unrepresentable due time is the
/// epoch.
pub open spec fn is_scheduler_info(info: SchedulerInfo, id: SchedulerId, f: SchedFields, score: i64) -> bool {
    &&& info.id == id
    &&& opt_text(info.name) == f.name
    &&& match (f.every, f.pattern) {
        (Some(ms), _) => info.repeat matches Some(Repeat::Every { interval, offset }) && interval.ms
            == ms && offset == (match f.offset {
            Some(o) => Some(Duration { ms: if o < 0 { 0u64 } else { o as u64 } }),
            None => None,
        }),
        (None, Some(p)) => info.repeat matches Some(Repeat::Cron { pattern, tz }) && pattern@ == p
            && match (tz, f.tz) {
            (Some(t), Some(n)) => tz_name_known(n) && t@ == n,
            (None, Some(n)) => !tz_name_known(n),
            (None, None) => true,
            _ => false,
        },
        (None, None) => info.repeat is None,
    }
    &&& is_bound(info.window.start, bound_of(f.start))
    &&& is_bound(info.window.end, bound_of(f.end))
    &&& info.window.limit == f.limit
    &&& info.window.immediately is None
    &&& info.iteration_count == f.ic
    &&& info.next_fire@ == (if chrono_millis_in_range(score) { score } else { 0 })
    &&& info.next_fire.wf()
}

/// A scheduler read back keeps what its hash stores: its name, its cron pattern
/// with the stored zone (when the zone is one chrono-tz knows) or its interval, its
/// limit and iteration count, and its start and end bounds when representable.
pub proof fn lemma_scheduler_info_keeps_fields(info: SchedulerInfo, id: SchedulerId, f: SchedFields, score: i64)
    requires
        is_scheduler_info(info, id, f, score),
    ensures
        info.id == id,
        opt_text(info.name) == f.name,
        f.every matches Some(ms) ==> (info.repeat matches Some(Repeat::Every { interval, .. })
            && interval.ms == ms),
        f.every is None ==> (f.pattern matches Some(p) ==> (info.repeat matches Some(
            Repeat::Cron { pattern, tz },
        ) && pattern@ == p && (f.tz matches Some(n) ==> (tz_name_known(n) ==> (tz matches Some(
            z,
        ) && z@ == n))) && (f.tz is None ==> tz is None))),
        (f.every is None && f.pattern is None) ==> info.repeat is None,
        info.window.limit == f.limit,
        info.iteration_count == f.ic,
        f.start matches Some(ms) ==> (chrono_millis_in_range(ms) ==> (info.window.start matches Some(
            t,
        ) && t@ == ms)),
        f.end matches Some(ms) ==> (chrono_millis_in_range(ms) ==> (info.window.end matches Some(t)
            && t@ == ms)),
        chrono_millis_in_range(score) ==> info.next_fire@ == score,
{
}

/// An optional bound as a timestamp, dropped when chrono can't represent it.
fn bound(ms: Option<i64>) -> (r: Option<Timestamp>)
    ensures
        is_bound(r, bound_of(ms)),
{
    match ms {
        Some(v) => Timestamp::from_millis(v),
        None => None,
    }
}

/// Read a scheduler out of the answer of `getJobScheduler`.
pub struct GetJobScheduler<'a> {
    /// The queue.
    pub queue: &'a QueueName,
    /// The scheduler.
    pub scheduler_id: &'a SchedulerId,
}

impl<'a> GetJobScheduler<'a> {
    /// Read the scheduler from its fields and score.
    fn scheduler_from_fields(&self, items: &Vec<Reply>, score: i64) -> (r: Result<
        Option<SchedulerInfo>,
        JobSchedulerError,
    >)
        ensures
            match sched_fields_from(items@, 0, no_sched_fields()) {
                Err(p) => r matches Err(JobSchedulerError::CronError { pattern, .. }) && pattern@
                    == p,
                Ok(f) => r matches Ok(Some(info)) && is_scheduler_info(
                    info,
                    *self.scheduler_id,
                    f,
                    score,
                ),
            },
    {
        let mut acc = SchedAcc {
            name: None,
            tz: None,
            pattern: None,
            every: None,
            offset: None,
            start: None,
            end: None,
            limit: None,
            ic: None,
        };
        let mut i: usize = 0;
        let mut bad: Option<(croner::errors::CronError, String)> = None;
        while i < items.len() && i + 1 < items.len()
            invariant_except_break
                bad is None,
                i <= items@.len(),
                sched_fields_from(items@, 0, no_sched_fields()) == sched_fields_from(
                    items@,
                    i as nat,
                    acc_view(acc),
                ),
            invariant
                i <= items@.len(),
            ensures
                bad matches Some(b) ==> sched_fields_from(items@, 0, no_sched_fields()) == Err::<
                    SchedFields,
                    Seq<char>,
                >(b.1@),
                bad is None ==> sched_fields_from(items@, 0, no_sched_fields()) == Ok::<
                    SchedFields,
                    Seq<char>,
                >(acc_view(acc)),
            decreases items@.len() - i,
        {
            let (k, v) = match (&items[i], &items[i + 1]) {
                (Reply::BulkString(k), Reply::BulkString(v)) => (
                    string_from_utf8_lossy(k),
                    string_from_utf8_lossy(v),
                ),
                _ => {
                    break;
                },
            };
            match apply_scheduler_field(&mut acc, k, v) {
                Ok(_) => {},
                Err(e) => {
                    bad = Some(e);
                    break;
                },
            }
            i = i + 2;
        }
        match bad {
            Some((error, pattern)) => {
                return Err(JobSchedulerError::CronError { error, pattern });
            },
            None => {},
        }
        let tz = match &acc.tz {
            Some(s) => Timezone::parse(s.as_str()),
            None => None,
        };
        let repeat = match (acc.every, acc.pattern) {
            (Some(ms), _) => Some(
                Repeat::Every {
                    interval: Duration::from_millis(ms),
                    offset: match acc.offset {
                        Some(o) => Some(Duration::from_millis(if o < 0 { 0u64 } else { o as u64 })),
                        None => None,
                    },
                },
            ),
            (None, Some(p)) => Some(Repeat::Cron { pattern: p, tz }),
            (None, None) => None,
        };
        let window = SchedulerWindow {
            start: bound(acc.start),
            end: bound(acc.end),
            limit: acc.limit,
            immediately: None,
        };
        let next_fire = match Timestamp::from_millis(score) {
            Some(t) => t,
            None => Timestamp::epoch(),
        };
        Ok(
            Some(
                SchedulerInfo {
                    id: self.scheduler_id.clone(),
                    name: acc.name,
                    repeat,
                    window,
                    iteration_count: acc.ic,
                    next_fire,
                },
            ),
        )
    }
}

impl<'a> InvokeLuaScript for GetJobScheduler<'a> {
    type RedisOutput = Reply;
    type DomainOk = Option<SchedulerInfo>;
    type DomainErr = JobSchedulerError;

    open spec fn expected_output(&self, value: &Reply) -> bool {
        true
    }

    fn output_is_expected(&self, value: &Reply) -> (r: bool) {
        true
    }

    fn generate_invocation(&self) -> (r: Result<ScriptCall, JobSchedulerError>)
        ensures
            r matches Ok(c) && {
                &&& c.script == Script::GetJobScheduler
                &&& texts(c.keys@) == seq![qk(*self.queue, ":repeat"@)]
                &&& c.args@.len() == 1
                &&& is_text(c.args@[0], self.scheduler_id@)
            },
    {
        let keys = vec![self.queue.repeat()];
        let args = vec![ScriptArg::Text(String::from_str(self.scheduler_id.as_ref()))];
        assert(texts(keys@) =~= seq![qk(*self.queue, ":repeat"@)]);
        Ok(ScriptCall { script: Script::GetJobScheduler, keys, args })
    }

    fn map_redis_error(&self, error: redis::RedisError) -> (r: JobSchedulerError)
        ensures
            r == JobSchedulerError::RedisError(error),
    {
        JobSchedulerError::RedisError(error)
    }

    fn map_pool_error(&self, error: deadpool_redis::PoolError) -> (r: JobSchedulerError)
        ensures
            r == JobSchedulerError::PoolError(error),
    {
        JobSchedulerError::PoolError(error)
    }

    /// Read the answer `[fields, score]`; anything else means there is no such scheduler.
    fn map_value(&self, value: Reply) -> (r: Result<Option<SchedulerInfo>, JobSchedulerError>)
        ensures
            match value {
                Reply::Array(parts) => if parts@.len() != 2 {
                    r matches Ok(None)
                } else {
                    match (sched_score(parts@[1]), parts@[0]) {
                        (Some(score), Reply::Array(items)) => match sched_fields_from(
                            items@,
                            0,
                            no_sched_fields(),
                        ) {
                            Err(p) => r matches Err(JobSchedulerError::CronError { pattern, .. })
                                && pattern@ == p,
                            Ok(f) => r matches Ok(Some(info)) && is_scheduler_info(
                                info,
                                *self.scheduler_id,
                                f,
                                score,
                            ),
                        },
                        _ => r matches Ok(None),
                    }
                },
                _ => r matches Ok(None),
            },
    {
        match value {
            Reply::Array(parts) => {
                if parts.len() != 2 {
                    return Ok(None);
                }
                let score = match &parts[1] {
                    Reply::Int(s) => *s,
                    Reply::BulkString(b) => {
                        let text = string_from_utf8_lossy(b);
                        match parse_i64(text.as_str()) {
                            Some(v) => v,
                            None => 0,
                        }
                    },
                    _ => {
                        return Ok(None);
                    },
                };
                match &parts[0] {
                    Reply::Array(items) => self.scheduler_from_fields(items, score),
                    _ => Ok(None),
                }
            },
            _ => Ok(None),
        }
    }
}

// ---------- add a job scheduler ----------

/// A job scheduler was added: its next job.
#[derive(Debug, PartialEq, Eq)]
pub struct AddJobSchedulerOk {
    /// The ID of the next scheduled job.
    pub job_id: String,
    /// Delay in milliseconds until the next job fires.
    pub delay: i64,
}

/// Add or update a job scheduler.
pub struct AddJobScheduler<'a> {
    /// The queue.
    pub queue: &'a QueueName,
    /// The scheduler.
    pub scheduler_id: &'a SchedulerId,
    /// Next fire time in milliseconds since epoch.
    pub next_millis: i64,
    /// Repetition rule.
    pub repeat: &'a Repeat,
    /// Optional bounds (start/end/limit/immediately).
    pub window: &'a SchedulerWindow,
    /// Template applied to every produced job.
    pub template: SchedulerTemplate<'a>,
    /// Job options applied when creating each scheduled job.
    pub delayed_opts: &'a JobOptions,
    /// Optional producer key (for flow producers).
    pub producer_key: Option<&'a str>,
}

/// The keys of `addJobScheduler` and `updateJobScheduler`.
pub open spec fn scheduler_keys(q: QueueName) -> Seq<Seq<char>> {
    seq![
        qk(q, ":repeat"@),
        qk(q, ":delayed"@),
        qk(q, ":wait"@),
        qk(q, ":paused"@),
        qk(q, ":meta"@),
        qk(q, ":prioritized"@),
        qk(q, ":marker"@),
        qk(q, ":id"@),
        qk(q, ":events"@),
        qk(q, ":pc"@),
        qk(q, ":active"@),
    ]
}

fn scheduler_key_list(q: &QueueName) -> (keys: Vec<String>)
    ensures
        texts(keys@) == scheduler_keys(*q),
{
    let keys = vec![
        q.repeat(),
        q.delayed(),
        q.wait(),
        q.paused(),
        q.meta(),
        q.prioritized(),
        q.marker(),
        q.id(),
        q.events(),
        q.priority_counter(),
        q.active(),
    ];
    assert(texts(keys@) =~= scheduler_keys(*q));
    keys
}

/// Whether `c` is the `addJobScheduler` invocation of `a` at time `now`.
pub open spec fn is_add_scheduler_call(c: ScriptCall, a: AddJobScheduler, now: i64) -> bool {
    &&& c.script == Script::AddJobScheduler
    &&& texts(c.keys@) == scheduler_keys(*a.queue)
    &&& c.args@.len() == 9
    &&& c.args@[0] == ScriptArg::Int(a.next_millis)
    &&& (c.args@[1] matches ScriptArg::SchedulerOpts(w) && is_wire_scheduler(
        w,
        a.template.name@,
        *a.repeat,
        *a.window,
    ))
    &&& is_text(c.args@[2], a.scheduler_id@)
    &&& is_text(c.args@[3], a.template.data_json@)
    &&& c.args@[4] == ScriptArg::JobOptions(wire_job_options_of(*a.template.opts))
    &&& c.args@[5] == ScriptArg::JobOptions(wire_job_options_of(*a.delayed_opts))
    &&& c.args@[6] == ScriptArg::Int(now)
    &&& is_text(c.args@[7], qk(*a.queue, ":"@))
    &&& is_text(
        c.args@[8],
        match a.producer_key {
            Some(p) => p@,
            None => Seq::<char>::empty(),
        },
    )
}

/// The scheduler upserted by `addJobScheduler` is the one asked for, window and
/// all: its options name the template's jobs, carry the rule (interval and offset,
/// or pattern text and zone) and bound the scheduler by the window's limit and its
/// start and end instants in milliseconds.
pub proof fn lemma_add_scheduler_carries_window(c: ScriptCall, a: AddJobScheduler, now: i64)
    requires
        is_add_scheduler_call(c, a, now),
    ensures
        c.args@[1] matches ScriptArg::SchedulerOpts(w) && {
            &&& w.name@ == a.template.name@
            &&& w.limit == a.window.limit
            &&& (a.window.start matches Some(t) ==> w.start_date == Some(t@))
            &&& (a.window.start is None ==> w.start_date is None)
            &&& (a.window.end matches Some(t) ==> w.end_date == Some(t@))
            &&& (a.window.end is None ==> w.end_date is None)
            &&& (a.repeat matches Repeat::Every { interval, .. } ==> w.every == Some(interval.ms)
                && w.pattern is None)
            &&& (a.repeat matches Repeat::Cron { pattern, tz } ==> w.every is None && (
            w.pattern matches Some(p) && p@ == pattern.text()) && (tz matches Some(z) ==> (
            w.tz matches Some(n) && n@ == z@)))
        },
        c.args@[0] == ScriptArg::Int(a.next_millis),
        is_text(c.args@[2], a.scheduler_id@),
{
}

impl<'a> AddJobScheduler<'a> {
    /// The invocation at time `now` (milliseconds); the scheduler options are
    /// `WireSchedulerOpts::from_domain` of the template name, rule and window.
    pub fn invocation_at(&self, now: i64) -> (c: ScriptCall)
        ensures
            is_add_scheduler_call(c, *self, now),
    {
        let scheduler_opts = WireSchedulerOpts::from_domain(self.template.name, self.repeat, self.window);
        let producer = match self.producer_key {
            Some(p) => String::from_str(p),
            None => String::new(),
        };
        let args = vec![
            ScriptArg::Int(self.next_millis),
            ScriptArg::SchedulerOpts(scheduler_opts),
            ScriptArg::Text(String::from_str(self.scheduler_id.as_ref())),
            ScriptArg::Text(String::from_str(self.template.data_json)),
            ScriptArg::JobOptions(WireJobOptions::from(self.template.opts)),
            ScriptArg::JobOptions(WireJobOptions::from(self.delayed_opts)),
            ScriptArg::Int(now),
            ScriptArg::Text(self.queue.prefix()),
            ScriptArg::Text(producer),
        ];
        ScriptCall { script: Script::AddJobScheduler, keys: scheduler_key_list(self.queue), args }
    }
}

impl<'a> InvokeLuaScript for AddJobScheduler<'a> {
    type RedisOutput = Reply;
    type DomainOk = AddJobSchedulerOk;
    type DomainErr = AddJobSchedulerError;

    open spec fn expected_output(&self, value: &Reply) -> bool {
        true
    }

    fn output_is_expected(&self, value: &Reply) -> (r: bool) {
        true
    }

    /// The invocation at the current time.
    fn generate_invocation(&self) -> (r: Result<ScriptCall, AddJobSchedulerError>)
        ensures
            r matches Ok(c) && exists|now: i64| #![auto]
                chrono_millis_in_range(now) && is_add_scheduler_call(c, *self, now),
    {
        let now = Timestamp::now();
        let c = self.invocation_at(now.timestamp_millis());
        assert(chrono_millis_in_range(now@) && is_add_scheduler_call(c, *self, now@));
        Ok(c)
    }

    fn map_redis_error(&self, error: redis::RedisError) -> (r: AddJobSchedulerError)
        ensures
            r == AddJobSchedulerError::RedisError(error),
    {
        AddJobSchedulerError::RedisError(error)
    }

    fn map_pool_error(&self, error: deadpool_redis::PoolError) -> (r: AddJobSchedulerError)
        ensures
            r == AddJobSchedulerError::PoolError(error),
    {
        AddJobSchedulerError::PoolError(error)
    }

    /// Read the answer: `-10` and `-11` are refusals, `[job id, delay]` the next job.
    fn map_value(&self, value: Reply) -> (r: Result<AddJobSchedulerOk, AddJobSchedulerError>)
        ensures
            match value {
                Reply::Int(n) => if n == -10 {
                    r matches Err(AddJobSchedulerError::JobIdCollision)
                } else if n == -11 {
                    r matches Err(AddJobSchedulerError::JobSlotsBusy)
                } else {
                    r matches Err(AddJobSchedulerError::RedisError(_))
                },
                Reply::Array(items) => if items@.len() == 2 {
                    match (items@[0], items@[1]) {
                        (Reply::BulkString(b), Reply::Int(d)) => r matches Ok(ok) && ok.job_id@
                            == utf8_lossy(b@) && ok.delay == d,
                        (Reply::SimpleString(s), Reply::Int(d)) => r matches Ok(ok) && ok.job_id@
                            == s@ && ok.delay == d,
                        _ => r matches Err(AddJobSchedulerError::RedisError(_)),
                    }
                } else {
                    r matches Err(AddJobSchedulerError::RedisError(_))
                },
                _ => r matches Err(AddJobSchedulerError::RedisError(_)),
            },
    {
        match value {
            Reply::Int(n) => {
                if n == -10 {
                    Err(AddJobSchedulerError::JobIdCollision)
                } else if n == -11 {
                    Err(AddJobSchedulerError::JobSlotsBusy)
                } else {
                    Err(AddJobSchedulerError::RedisError(unexpected_response(
                        "Unexpected response from addJobScheduler lua script",
                        &Reply::Int(n),
                    )))
                }
            },
            Reply::Array(items) => {
                if items.len() != 2 {
                    return Err(AddJobSchedulerError::RedisError(unexpected_response(
                        "Unexpected response from addJobScheduler lua script",
                        &Reply::Array(items),
                    )));
                }
                let job_id = match &items[0] {
                    Reply::BulkString(b) => string_from_utf8_lossy(b),
                    Reply::SimpleString(s) => s.clone(),
                    other => {
                        return Err(AddJobSchedulerError::RedisError(unexpected_response(
                            "Unexpected job_id type from addJobScheduler",
                            other,
                        )));
                    },
                };
                let delay = match &items[1] {
                    Reply::Int(d) => *d,
                    other => {
                        return Err(AddJobSchedulerError::RedisError(unexpected_response(
                            "Unexpected delay type from addJobScheduler",
                            other,
                        )));
                    },
                };
                Ok(AddJobSchedulerOk { job_id, delay })
            },
            other => Err(AddJobSchedulerError::RedisError(unexpected_response(
                "Unexpected response from addJobScheduler lua script",
                &other,
            ))),
        }
    }
}

// ---------- update a job scheduler ----------

/// Schedule the next job of a scheduler.
pub struct UpdateJobScheduler<'a> {
    /// The queue.
    pub queue: &'a QueueName,
    /// The scheduler.
    pub scheduler_id: &'a str,
    /// Next fire time in milliseconds since epoch.
    pub next_millis: i64,
    /// Data of the next job, as JSON.
    pub delayed_data_json: &'a str,
    /// Options of the next job.
    pub delayed_opts: &'a JobOptions,
    /// Current time in milliseconds since epoch.
    pub timestamp: i64,
    /// Prefix of the queue's keys.
    pub prefix: String,
    /// Id of the job that produced this update.
    pub producer_id: Option<&'a str>,
}

impl<'a> InvokeLuaScript for UpdateJobScheduler<'a> {
    type RedisOutput = Reply;
    type DomainOk = String;
    type DomainErr = AddJobSchedulerError;

    open spec fn expected_output(&self, value: &Reply) -> bool {
        true
    }

    fn output_is_expected(&self, value: &Reply) -> (r: bool) {
        true
    }

    fn generate_invocation(&self) -> (r: Result<ScriptCall, AddJobSchedulerError>)
        ensures
            r matches Ok(c) && {
                &&& c.script == Script::UpdateJobScheduler
                &&& texts(c.keys@) == scheduler_keys(*self.queue)
                &&& c.args@.len() == 7
                &&& c.args@[0] == ScriptArg::Int(self.next_millis)
                &&& is_text(c.args@[1], self.scheduler_id@)
                &&& is_text(c.args@[2], self.delayed_data_json@)
                &&& c.args@[3] == ScriptArg::JobOptions(wire_job_options_of(*self.delayed_opts))
                &&& c.args@[4] == ScriptArg::Int(self.timestamp)
                &&& is_text(c.args@[5], self.prefix@)
                &&& is_text(
                    c.args@[6],
                    match self.producer_id {
                        Some(p) => p@,
                        None => Seq::<char>::empty(),
                    },
                )
            },
    {
        let producer = match self.producer_id {
            Some(p) => String::from_str(p),
            None => String::new(),
        };
        let args = vec![
            ScriptArg::Int(self.next_millis),
            ScriptArg::Text(String::from_str(self.scheduler_id)),
            ScriptArg::Text(String::from_str(self.delayed_data_json)),
            ScriptArg::JobOptions(WireJobOptions::from(self.delayed_opts)),
            ScriptArg::Int(self.timestamp),
            ScriptArg::Text(self.prefix.clone()),
            ScriptArg::Text(producer),
        ];
        Ok(ScriptCall { script: Script::UpdateJobScheduler, keys: scheduler_key_list(self.queue), args })
    }

    fn map_redis_error(&self, error: redis::RedisError) -> (r: AddJobSchedulerError)
        ensures
            r == AddJobSchedulerError::RedisError(error),
    {
        AddJobSchedulerError::RedisError(error)
    }

    fn map_pool_error(&self, error: deadpool_redis::PoolError) -> (r: AddJobSchedulerError)
        ensures
            r == AddJobSchedulerError::PoolError(error),
    {
        AddJobSchedulerError::PoolError(error)
    }

    /// Read the answer: the id of the next job; nil (the scheduler is gone) gives an
    /// empty id.
    fn map_value(&self, value: Reply) -> (r: Result<String, AddJobSchedulerError>)
        ensures
            match value {
                Reply::BulkString(b) => r matches Ok(s) && s@ == utf8_lossy(b@),
                Reply::SimpleString(t) => r matches Ok(s) && s@ == t@,
                Reply::Nil => r matches Ok(s) && s@.len() == 0,
                _ => r matches Err(AddJobSchedulerError::RedisError(_)),
            },
    {
        match value {
            Reply::BulkString(b) => Ok(string_from_utf8_lossy(&b)),
            Reply::SimpleString(s) => Ok(s),
            Reply::Nil => Ok(String::new()),
            other => Err(AddJobSchedulerError::RedisError(unexpected_response(
                "Unexpected response from updateJobScheduler lua script",
                &other,
            ))),
        }
    }
}

// ---------- after a scheduled job finished ----------

/// Why the next job of a scheduler can't be planned.
#[derive(Debug)]
pub enum NextFireError {
    /// The scheduler has no repetition rule.
    NoRepeatRule,
    /// The next occurrence of the cron pattern could not be found.
    Cron(CronNextError),
}

/// When a scheduler fires next after one of its jobs finished at `now`: not at all
/// once its end has passed or its limit is reached; right away (the script realigns
/// interval schedules); at the next occurrence of its cron pattern.
pub fn scheduler_next_fire(info: &SchedulerInfo, now: Timestamp) -> (r: Result<Option<i64>, NextFireError>)
    ensures
        (info.window.end matches Some(end) && now@ > end@) ==> r matches Ok(None),
        !(info.window.end matches Some(end) && now@ > end@) && (info.window.limit matches Some(
            limit,
        ) && info.iteration_count matches Some(ic) && ic >= limit) ==> r matches Ok(None),
        !(info.window.end matches Some(end) && now@ > end@) && !(info.window.limit matches Some(
            limit,
        ) && info.iteration_count matches Some(ic) && ic >= limit) ==> match info.repeat {
            Some(Repeat::Every { .. }) => r matches Ok(Some(ms)) && ms == now@ + 1,
            Some(Repeat::Cron { pattern, tz }) => {
                let next = cron_next_occurrence(
                    pattern@,
                    match tz {
                        Some(t) => Some(t@),
                        None => None,
                    },
                    now@,
                );
                match r {
                    Ok(Some(ms)) => next == Some(ms),
                    Err(NextFireError::Cron(_)) => next is None,
                    _ => false,
                }
            },
            None => r matches Err(NextFireError::NoRepeatRule),
        },
{
    let now_ms = now.timestamp_millis();
    match info.window.end {
        Some(end) => {
            if now.timestamp_millis() > end.timestamp_millis() {
                return Ok(None);
            }
        },
        None => {},
    }
    match (info.window.limit, info.iteration_count) {
        (Some(limit), Some(ic)) => {
            if ic >= limit {
                return Ok(None);
            }
        },
        _ => {},
    }
    match &info.repeat {
        Some(Repeat::Every { .. }) => Ok(Some(now.timestamp_millis() + 1)),
        Some(Repeat::Cron { pattern, tz }) => {
            let tz_ref = match tz {
                Some(t) => Some(t),
                None => None,
            };
            match compute_cron_next_millis(pattern, tz_ref, now) {
                Ok(ms) => Ok(Some(ms)),
                Err(e) => Err(NextFireError::Cron(e)),
            }
        },
        None => Err(NextFireError::NoRepeatRule),
    }
}

} // verus!
