//! Invocations of the queue's Lua scripts: which script, which keys, which
//! arguments, and how its answer is read.
use vstd::prelude::*;

use crate::wire::{
    WireJobOptions, WireMoveToActiveOpts, WireMoveToFinishedOpts, WireSchedulerOpts,
};

verus! {

/// The Lua scripts of a queue.
#[derive(Debug, Clone, Copy, PartialEq, Eq, Structural)]
pub enum Script {
    /// `addDelayedJob-6.lua`
    AddDelayedJob,
    /// `addJobScheduler-11.lua`
    AddJobScheduler,
    /// `addLog-2.lua`
    AddLog,
    /// `addPrioritizedJob-9.lua`
    AddPrioritizedJob,
    /// `addStandardJob-9.lua`
    AddStandardJob,
    /// `extendLocks-1.lua`
    ExtendLocks,
    /// `getJobScheduler-1.lua`
    GetJobScheduler,
    /// `isFinished-3.lua`
    IsFinished,
    /// `moveStalledJobsToWait-8.lua`
    MoveStalledJobsToWait,
    /// `moveToActive-11.lua`
    MoveToActive,
    /// `moveToFinished-14.lua`
    MoveToFinished,
    /// `obliterate-2.lua`
    Obliterate,
    /// `pause-7.lua`
    Pause,
    /// `removeJob-2.lua`
    RemoveJob,
    /// `removeJobScheduler-3.lua`
    RemoveJobScheduler,
    /// `updateJobScheduler-12.lua`
    UpdateJobScheduler,
    /// `updateProgress-3.lua`
    UpdateProgress,
}

/// The fixed arguments of the add-job scripts, sent as a MessagePack tuple
/// `(prefix, custom id, name, timestamp, nil, "", "", nil, "", "")`.
#[derive(Debug, PartialEq, Eq)]
pub struct AddJobArgs {
    /// `bull:<queue>:`
    pub key_prefix: String,
    /// Custom job id, or empty for a generated one.
    pub custom_id: String,
    /// Name of the job.
    pub job_name: String,
    /// Creation time, in milliseconds since the epoch.
    pub timestamp: i64,
}

/// One argument of a script invocation.
#[derive(Debug)]
pub enum ScriptArg {
    /// A string.
    Text(String),
    /// A signed integer.
    Int(i64),
    /// An unsigned integer.
    UInt(u64),
    /// An `f32`, by its IEEE-754 bits.
    Float32Bits(u32),
    /// The fixed arguments of an add-job script (MessagePack tuple).
    AddJobArgs(AddJobArgs),
    /// Job options (MessagePack with field names).
    JobOptions(WireJobOptions),
    /// Options of `moveToActive` (MessagePack with field names).
    MoveToActiveOpts(WireMoveToActiveOpts),
    /// Options of `moveToFinished` (MessagePack with field names).
    MoveToFinishedOpts(WireMoveToFinishedOpts),
    /// Options of a job scheduler (MessagePack with field names).
    SchedulerOpts(WireSchedulerOpts),
    /// A list of strings (MessagePack array).
    StringList(Vec<String>),
    /// Job fields to update (MessagePack map), or empty bytes for none.
    JobFields(Option<Vec<(String, String)>>),
}

/// A script invocation: the script, its keys and its arguments, in order.
#[derive(Debug)]
pub struct ScriptCall {
    /// The script to run.
    pub script: Script,
    /// `KEYS`
    pub keys: Vec<String>,
    /// `ARGV`
    pub args: Vec<ScriptArg>,
}

/// The texts of a sequence of strings.
pub open spec fn texts(v: Seq<String>) -> Seq<Seq<char>> {
    v.map_values(|s: String| s@)
}

/// Whether `a` is the string argument `t`.
pub open spec fn is_text(a: ScriptArg, t: Seq<char>) -> bool {
    a matches ScriptArg::Text(s) && s@ == t
}

/// An invocation of a queue's Lua script, and the reading of its answer.
pub trait InvokeLuaScript {
    /// What the script returns, as Redis delivers it.
    type RedisOutput;
    /// What the call gives on success.
    type DomainOk;
    /// What the call gives on failure.
    type DomainErr;

    /// The answers the script can give; others are a defect of the script.
    spec fn expected_output(&self, value: &Self::RedisOutput) -> bool;

    /// Whether the script gave one of the answers it can give.
    fn output_is_expected(&self, value: &Self::RedisOutput) -> (r: bool)
        ensures
            r == self.expected_output(value),
    ;

    /// The invocation: script, keys and arguments.
    fn generate_invocation(&self) -> Result<ScriptCall, Self::DomainErr>;

    /// The error for a failed Redis command.
    fn map_redis_error(&self, error: redis::RedisError) -> Self::DomainErr;

    /// The error for a failure to get a connection.
    fn map_pool_error(&self, error: deadpool_redis::PoolError) -> Self::DomainErr;

    /// The result of the call for the script's answer.
    fn map_value(&self, value: Self::RedisOutput) -> Result<Self::DomainOk, Self::DomainErr>
        requires
            self.expected_output(&value),
    ;
}

} // verus!
