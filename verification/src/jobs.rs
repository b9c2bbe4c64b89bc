//! Adding jobs to a queue: the add-job scripts, their invocations and answers.
use vstd::prelude::*;
use vstd::string::*;

use crate::commands::qk;
use crate::errors::AddJobErr;
use crate::name::QueueName;
use crate::options::JobOptions;
use crate::reply::{string_from_utf8_lossy, unexpected_response, utf8_lossy, Reply};
use crate::script::{is_text, texts, AddJobArgs, InvokeLuaScript, Script, ScriptArg, ScriptCall};
use crate::time::Timestamp;
use crate::wire::{wire_job_options_of, WireJobOptions};

verus! {

/// The job id in the answer of an add-job script: the text of a string reply
/// (invalid UTF-8 replaced), `None` for any other reply.
pub open spec fn added_job_id(r: Reply) -> Option<Seq<char>> {
    match r {
        Reply::BulkString(b) => Some(utf8_lossy(b@)),
        Reply::SimpleString(s) => Some(s@),
        _ => None,
    }
}

/// Map the answer of an add-job script to a job id: `-5` means the parent is
/// missing, a string is the id, anything else is an unexpected response.
pub fn map_add_job_value(value: Reply) -> (r: Result<String, AddJobErr>)
    ensures
        (value matches Reply::Int(n) && n == -5) ==> r matches Err(AddJobErr::MissingParentKey),
        added_job_id(value) matches Some(t) ==> (r matches Ok(id) && id@ == t),
        !(value matches Reply::Int(n) && n == -5) && added_job_id(value) is None ==> r matches Err(
            AddJobErr::RedisError(_),
        ),
{
    match value {
        Reply::Int(n) => {
            if n == -5 {
                Err(AddJobErr::MissingParentKey)
            } else {
                Err(AddJobErr::RedisError(unexpected_response("Unexpected response from add-job lua script", &Reply::Int(n))))
            }
        },
        Reply::BulkString(s) => Ok(string_from_utf8_lossy(&s)),
        Reply::SimpleString(s) => Ok(s),
        other => Err(AddJobErr::RedisError(unexpected_response("Unexpected response from add-job lua script", &other))),
    }
}

/// The custom job id handed to an add-job script: the one in the options, or empty.
pub open spec fn custom_id_of(o: JobOptions) -> Seq<char> {
    match o.job_id {
        Some(id) => id@,
        None => Seq::<char>::empty(),
    }
}

/// The creation time handed to an add-job script: the one in the options, else `now`.
pub open spec fn creation_millis(o: JobOptions, now: Timestamp) -> i64 {
    match o.timestamp {
        Some(t) => t@,
        None => now@,
    }
}

/// Whether `c` invokes `script` with `keys`, the fixed add-job arguments of job
/// `name` created at `ts`, the payload `data_json` and the options `o`.
pub open spec fn is_add_job_call(
    c: ScriptCall,
    script: Script,
    keys: Seq<Seq<char>>,
    q: QueueName,
    name: Seq<char>,
    data_json: Seq<char>,
    o: JobOptions,
    ts: i64,
) -> bool {
    &&& c.script == script
    &&& texts(c.keys@) == keys
    &&& c.args@.len() == 3
    &&& (c.args@[0] matches ScriptArg::AddJobArgs(a) && {
        &&& a.key_prefix@ == qk(q, ":"@)
        &&& a.custom_id@ == custom_id_of(o)
        &&& a.job_name@ == name
        &&& a.timestamp == ts
    })
    &&& is_text(c.args@[1], data_json)
    &&& c.args@[2] == ScriptArg::JobOptions(wire_job_options_of(o))
}

/// An add-job invocation creates the job under the id its options ask for: the
/// custom id handed to the script is the options' `job_id` when one is set, and
/// empty (an id Redis generates) only when none is; the job's name and creation
/// time are the ones given, the creation time being the options' own when set.
pub proof fn lemma_add_job_keeps_custom_id(
    c: ScriptCall,
    script: Script,
    keys: Seq<Seq<char>>,
    q: QueueName,
    name: Seq<char>,
    data_json: Seq<char>,
    o: JobOptions,
    now: Timestamp,
)
    requires
        is_add_job_call(c, script, keys, q, name, data_json, o, creation_millis(o, now)),
    ensures
        c.args@[0] matches ScriptArg::AddJobArgs(a) && {
            &&& (o.job_id matches Some(id) ==> a.custom_id@ == id@)
            &&& (o.job_id is None ==> a.custom_id@.len() == 0)
            &&& a.job_name@ == name
            &&& (o.timestamp matches Some(t) ==> a.timestamp == t@)
            &&& (o.timestamp is None ==> a.timestamp == now@)
        },
{
}

/// The invocation of an add-job script with the given keys.
fn add_job_call(
    script: Script,
    keys: Vec<String>,
    q: &QueueName,
    name: &str,
    data_json: &str,
    o: &JobOptions,
    now: Timestamp,
) -> (c: ScriptCall)
    ensures
        is_add_job_call(c, script, texts(keys@), *q, name@, data_json@, *o, creation_millis(*o, now)),
{
    let custom_id = match &o.job_id {
        Some(id) => id.clone(),
        None => String::new(),
    };
    let timestamp = match &o.timestamp {
        Some(t) => t.timestamp_millis(),
        None => now.timestamp_millis(),
    };
    let args = vec![
        ScriptArg::AddJobArgs(
            AddJobArgs {
                key_prefix: q.prefix(),
                custom_id,
                job_name: String::from_str(name),
                timestamp,
            },
        ),
        ScriptArg::Text(String::from_str(data_json)),
        ScriptArg::JobOptions(WireJobOptions::from(o)),
    ];
    ScriptCall { script, keys, args }
}

// ---------- standard jobs ----------

/// Add a job to the end (or, `lifo`, the front) of the wait list.
pub struct AddStandardJob<'a> {
    /// Queue the job is added to.
    pub queue: &'a QueueName,
    /// Name of the job.
    pub job_name: &'a str,
    /// The job payload, serialized as JSON.
    pub data_json: &'a str,
    /// Options of the job.
    pub job_options: &'a JobOptions,
}

/// A standard job was added.
#[derive(Debug, PartialEq, Eq)]
pub enum AddStandardJobOk {
    /// Id of the new job.
    JobId(String),
}

/// The keys of `addStandardJob`.
pub open spec fn standard_job_keys(q: QueueName) -> Seq<Seq<char>> {
    seq![
        qk(q, ":wait"@),
        qk(q, ":paused"@),
        qk(q, ":meta"@),
        qk(q, ":id"@),
        qk(q, ":completed"@),
        qk(q, ":delayed"@),
        qk(q, ":active"@),
        qk(q, ":events"@),
        qk(q, ":marker"@),
    ]
}

impl<'a> AddStandardJob<'a> {
    /// The invocation for a job created at `now` unless its options fix the time.
    pub fn invocation_at(&self, now: Timestamp) -> (c: ScriptCall)
        ensures
            is_add_job_call(
                c,
                Script::AddStandardJob,
                standard_job_keys(*self.queue),
                *self.queue,
                self.job_name@,
                self.data_json@,
                *self.job_options,
                creation_millis(*self.job_options, now),
            ),
    {
        let q = self.queue;
        let keys = vec![
            q.wait(),
            q.paused(),
            q.meta(),
            q.id(),
            q.completed(),
            q.delayed(),
            q.active(),
            q.events(),
            q.marker(),
        ];
        assert(texts(keys@) =~= standard_job_keys(*self.queue));
        add_job_call(Script::AddStandardJob, keys, q, self.job_name, self.data_json, self.job_options, now)
    }
}

impl<'a> InvokeLuaScript for AddStandardJob<'a> {
    type RedisOutput = Reply;
    type DomainOk = AddStandardJobOk;
    type DomainErr = AddJobErr;

    open spec fn expected_output(&self, value: &Reply) -> bool {
        true
    }

    fn output_is_expected(&self, value: &Reply) -> (r: bool) {
        true
    }

    /// The invocation; a job without a creation time in its options is created now.
    fn generate_invocation(&self) -> (r: Result<ScriptCall, AddJobErr>)
        ensures
            r matches Ok(c) && exists|now: Timestamp| #![auto]
                now.wf() && is_add_job_call(
                    c,
                    Script::AddStandardJob,
                    standard_job_keys(*self.queue),
                    *self.queue,
                    self.job_name@,
                    self.data_json@,
                    *self.job_options,
                    creation_millis(*self.job_options, now),
                ),
    {
        let now = Timestamp::now();
        Ok(self.invocation_at(now))
    }

    fn map_redis_error(&self, error: redis::RedisError) -> (r: AddJobErr)
        ensures
            r == AddJobErr::RedisError(error),
    {
        AddJobErr::RedisError(error)
    }

    fn map_pool_error(&self, error: deadpool_redis::PoolError) -> (r: AddJobErr)
        ensures
            r == AddJobErr::PoolError(error),
    {
        AddJobErr::PoolError(error)
    }

    fn map_value(&self, value: Reply) -> (r: Result<AddStandardJobOk, AddJobErr>)
        ensures
            (value matches Reply::Int(n) && n == -5) ==> r matches Err(AddJobErr::MissingParentKey),
            added_job_id(value) matches Some(t) ==> (r matches Ok(AddStandardJobOk::JobId(id))
                && id@ == t),
            !(value matches Reply::Int(n) && n == -5) && added_job_id(value) is None ==> r matches Err(
                AddJobErr::RedisError(_),
            ),
    {
        match map_add_job_value(value) {
            Ok(id) => Ok(AddStandardJobOk::JobId(id)),
            Err(e) => Err(e),
        }
    }
}

// ---------- prioritized jobs ----------

/// Add a job to the prioritized set.
pub struct AddPrioritizedJob<'a> {
    /// Queue the job is added to.
    pub queue: &'a QueueName,
    /// Name of the job.
    pub job_name: &'a str,
    /// The job payload, serialized as JSON.
    pub data_json: &'a str,
    /// Options of the job.
    pub job_options: &'a JobOptions,
}

/// A prioritized job was added.
#[derive(Debug, PartialEq, Eq)]
pub enum AddPrioritizedJobReturn {
    /// Id of the new job.
    JobId(String),
}

/// The keys of `addPrioritizedJob`.
pub open spec fn prioritized_job_keys(q: QueueName) -> Seq<Seq<char>> {
    seq![
        qk(q, ":marker"@),
        qk(q, ":meta"@),
        qk(q, ":id"@),
        qk(q, ":prioritized"@),
        qk(q, ":delayed"@),
        qk(q, ":completed"@),
        qk(q, ":active"@),
        qk(q, ":events"@),
        qk(q, ":pc"@),
    ]
}

impl<'a> AddPrioritizedJob<'a> {
    /// The invocation for a job created at `now` unless its options fix the time.
    pub fn invocation_at(&self, now: Timestamp) -> (c: ScriptCall)
        ensures
            is_add_job_call(
                c,
                Script::AddPrioritizedJob,
                prioritized_job_keys(*self.queue),
                *self.queue,
                self.job_name@,
                self.data_json@,
                *self.job_options,
                creation_millis(*self.job_options, now),
            ),
    {
        let q = self.queue;
        let keys = vec![
            q.marker(),
            q.meta(),
            q.id(),
            q.prioritized(),
            q.delayed(),
            q.completed(),
            q.active(),
            q.events(),
            q.priority_counter(),
        ];
        assert(texts(keys@) =~= prioritized_job_keys(*self.queue));
        add_job_call(Script::AddPrioritizedJob, keys, q, self.job_name, self.data_json, self.job_options, now)
    }
}

impl<'a> InvokeLuaScript for AddPrioritizedJob<'a> {
    type RedisOutput = Reply;
    type DomainOk = AddPrioritizedJobReturn;
    type DomainErr = AddJobErr;

    open spec fn expected_output(&self, value: &Reply) -> bool {
        true
    }

    fn output_is_expected(&self, value: &Reply) -> (r: bool) {
        true
    }

    /// The invocation; a job without a creation time in its options is created now.
    fn generate_invocation(&self) -> (r: Result<ScriptCall, AddJobErr>)
        ensures
            r matches Ok(c) && exists|now: Timestamp| #![auto]
                now.wf() && is_add_job_call(
                    c,
                    Script::AddPrioritizedJob,
                    prioritized_job_keys(*self.queue),
                    *self.queue,
                    self.job_name@,
                    self.data_json@,
                    *self.job_options,
                    creation_millis(*self.job_options, now),
                ),
    {
        let now = Timestamp::now();
        Ok(self.invocation_at(now))
    }

    fn map_redis_error(&self, error: redis::RedisError) -> (r: AddJobErr)
        ensures
            r == AddJobErr::RedisError(error),
    {
        AddJobErr::RedisError(error)
    }

    fn map_pool_error(&self, error: deadpool_redis::PoolError) -> (r: AddJobErr)
        ensures
            r == AddJobErr::PoolError(error),
    {
        AddJobErr::PoolError(error)
    }

    fn map_value(&self, value: Reply) -> (r: Result<AddPrioritizedJobReturn, AddJobErr>)
        ensures
            (value matches Reply::Int(n) && n == -5) ==> r matches Err(AddJobErr::MissingParentKey),
            added_job_id(value) matches Some(t) ==> (r matches Ok(AddPrioritizedJobReturn::JobId(id))
                && id@ == t),
            !(value matches Reply::Int(n) && n == -5) && added_job_id(value) is None ==> r matches Err(
                AddJobErr::RedisError(_),
            ),
    {
        match map_add_job_value(value) {
            Ok(id) => Ok(AddPrioritizedJobReturn::JobId(id)),
            Err(e) => Err(e),
        }
    }
}

// ---------- delayed jobs ----------

/// Add a job to the delayed set.
pub struct AddDelayedJob<'a> {
    /// Queue the job is added to.
    pub queue: &'a QueueName,
    /// Name of the job.
    pub job_name: &'a str,
    /// The job payload, serialized as JSON.
    pub data_json: &'a str,
    /// Options of the job.
    pub job_options: &'a JobOptions,
}

/// The keys of `addDelayedJob`.
pub open spec fn delayed_job_keys(q: QueueName) -> Seq<Seq<char>> {
    seq![
        qk(q, ":marker"@),
        qk(q, ":meta"@),
        qk(q, ":id"@),
        qk(q, ":delayed"@),
        qk(q, ":completed"@),
        qk(q, ":events"@),
    ]
}

impl<'a> AddDelayedJob<'a> {
    /// The invocation for a job created at `now` unless its options fix the time.
    pub fn invocation_at(&self, now: Timestamp) -> (c: ScriptCall)
        ensures
            is_add_job_call(
                c,
                Script::AddDelayedJob,
                delayed_job_keys(*self.queue),
                *self.queue,
                self.job_name@,
                self.data_json@,
                *self.job_options,
                creation_millis(*self.job_options, now),
            ),
    {
        let q = self.queue;
        let keys = vec![q.marker(), q.meta(), q.id(), q.delayed(), q.completed(), q.events()];
        assert(texts(keys@) =~= delayed_job_keys(*self.queue));
        add_job_call(Script::AddDelayedJob, keys, q, self.job_name, self.data_json, self.job_options, now)
    }
}

impl<'a> InvokeLuaScript for AddDelayedJob<'a> {
    type RedisOutput = Reply;
    type DomainOk = String;
    type DomainErr = AddJobErr;

    open spec fn expected_output(&self, value: &Reply) -> bool {
        true
    }

    fn output_is_expected(&self, value: &Reply) -> (r: bool) {
        true
    }

    /// The invocation; a job without a creation time in its options is created now.
    fn generate_invocation(&self) -> (r: Result<ScriptCall, AddJobErr>)
        ensures
            r matches Ok(c) && exists|now: Timestamp| #![auto]
                now.wf() && is_add_job_call(
                    c,
                    Script::AddDelayedJob,
                    delayed_job_keys(*self.queue),
                    *self.queue,
                    self.job_name@,
                    self.data_json@,
                    *self.job_options,
                    creation_millis(*self.job_options, now),
                ),
    {
        let now = Timestamp::now();
        Ok(self.invocation_at(now))
    }

    fn map_redis_error(&self, error: redis::RedisError) -> (r: AddJobErr)
        ensures
            r == AddJobErr::RedisError(error),
    {
        AddJobErr::RedisError(error)
    }

    fn map_pool_error(&self, error: deadpool_redis::PoolError) -> (r: AddJobErr)
        ensures
            r == AddJobErr::PoolError(error),
    {
        AddJobErr::PoolError(error)
    }

    fn map_value(&self, value: Reply) -> (r: Result<String, AddJobErr>)
        ensures
            (value matches Reply::Int(n) && n == -5) ==> r matches Err(AddJobErr::MissingParentKey),
            added_job_id(value) matches Some(t) ==> (r matches Ok(id) && id@ == t),
            !(value matches Reply::Int(n) && n == -5) && added_job_id(value) is None ==> r matches Err(
                AddJobErr::RedisError(_),
            ),
    {
        map_add_job_value(value)
    }
}

/// All information and parameters that are required to schedule a job.
#[derive(Debug)]
pub struct JobScheduling<P> {
    /// The name of the job.
    pub name: String,
    /// The payload of the job.
    pub data: P,
    /// The priority of the job; none is the highest.
    pub priority: Option<usize>,
}

/// Which add-job script takes a job with options `o`.
#[derive(Debug, Clone, Copy, PartialEq, Eq, Structural)]
pub enum AddJobKind {
    /// A delay is set: `addDelayedJob`.
    Delayed,
    /// No delay but a priority: `addPrioritizedJob`.
    Prioritized,
    /// Neither: `addStandardJob`.
    Standard,
}

/// The script a job goes through: a delay wins over a priority.
pub open spec fn add_job_kind_of(o: JobOptions) -> AddJobKind {
    if o.delay is Some {
        AddJobKind::Delayed
    } else if o.priority is Some {
        AddJobKind::Prioritized
    } else {
        AddJobKind::Standard
    }
}

/// A job with a delay goes through `addDelayedJob`, whether or not it has a
/// priority; a job with a priority and no delay through `addPrioritizedJob`; any
/// other through `addStandardJob`.
pub proof fn lemma_add_job_script_choice(o: JobOptions)
    ensures
        o.delay is Some ==> add_job_kind_of(o) == AddJobKind::Delayed,
        (o.delay is None && o.priority is Some) ==> add_job_kind_of(o) == AddJobKind::Prioritized,
        (o.delay is None && o.priority is None) ==> add_job_kind_of(o) == AddJobKind::Standard,
{
}

/// Choose the add-job script for a job with options `o`.
pub fn add_job_kind(o: &JobOptions) -> (k: AddJobKind)
    ensures
        k == add_job_kind_of(*o),
{
    if o.delay.is_some() {
        AddJobKind::Delayed
    } else if o.priority.is_some() {
        AddJobKind::Prioritized
    } else {
        AddJobKind::Standard
    }
}

/// The invocation that adds a job with options `o`, created at `now` unless its
/// options fix the time: through the script its options call for.
pub fn add_job_invocation(
    queue: &QueueName,
    job_name: &str,
    data_json: &str,
    o: &JobOptions,
    now: Timestamp,
) -> (c: ScriptCall)
    ensures
        match add_job_kind_of(*o) {
            AddJobKind::Delayed => is_add_job_call(
                c,
                Script::AddDelayedJob,
                delayed_job_keys(*queue),
                *queue,
                job_name@,
                data_json@,
                *o,
                creation_millis(*o, now),
            ),
            AddJobKind::Prioritized => is_add_job_call(
                c,
                Script::AddPrioritizedJob,
                prioritized_job_keys(*queue),
                *queue,
                job_name@,
                data_json@,
                *o,
                creation_millis(*o, now),
            ),
            AddJobKind::Standard => is_add_job_call(
                c,
                Script::AddStandardJob,
                standard_job_keys(*queue),
                *queue,
                job_name@,
                data_json@,
                *o,
                creation_millis(*o, now),
            ),
        },
{
    match add_job_kind(o) {
        AddJobKind::Delayed => AddDelayedJob { queue, job_name, data_json, job_options: o }.invocation_at(now),
        AddJobKind::Prioritized => AddPrioritizedJob { queue, job_name, data_json, job_options: o }.invocation_at(now),
        AddJobKind::Standard => AddStandardJob { queue, job_name, data_json, job_options: o }.invocation_at(now),
    }
}

} // verus!
