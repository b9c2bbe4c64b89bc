//! Job schedulers: repetition rules, their next firing time, and how a scheduler
//! is stored in and read back from Redis.
use vstd::prelude::*;
use vstd::string::*;

use crate::commands::qk;
use crate::errors::{AddJobSchedulerError, JobSchedulerError};
use crate::ids::SchedulerId;
use crate::name::QueueName;
use crate::options::{default_job_options, JobOptions};
use crate::reply::{string_from_utf8_lossy, unexpected_response, utf8_lossy, Reply};
use crate::script::{is_text, texts, InvokeLuaScript, Script, ScriptArg, ScriptCall};
use crate::time::{chrono_millis_in_range, Duration, Timestamp};
use crate::wire::{wire_job_options_of, WireJobOptions, WireSchedulerOpts};

verus! {

/// `croner::Cron`: a parsed cron pattern.
#[verifier::external_type_specification]
#[verifier::external_body]
pub struct ExCron(croner::Cron);

/// `chrono_tz::Tz`: a time zone of the IANA database.
#[verifier::external_type_specification]
#[verifier::external_body]
pub struct ExTz(chrono_tz::Tz);

/// Whether croner accepts `s` as a cron pattern (five fields, or six with seconds).
pub uninterp spec fn cron_pattern_accepted(s: Seq<char>) -> bool;

/// The pattern text croner keeps of the accepted pattern `s` (`Cron::as_str` after
/// `Cron::from_str(s)`: upper-cased, trimmed, nicknames and names expanded).
pub uninterp spec fn cron_kept_text(s: Seq<char>) -> Seq<char>;

/// `<croner::Cron as FromStr>::from_str(s)` and, on success, `Cron::as_str` of the
/// result: the parsed pattern and the text croner keeps of it (named
/// `cron_kept_text`), when croner accepts `s` (named `cron_pattern_accepted`), else
/// croner's error.
#[verifier::external_body]
fn cron_from_str(s: &str) -> (r: Result<(croner::Cron, String), croner::errors::CronError>)
    ensures
        r is Ok <==> cron_pattern_accepted(s@),
        r matches Ok((_, t)) ==> t@ == cron_kept_text(s@),
{
    match <croner::Cron as std::str::FromStr>::from_str(s) {
        Ok(c) => {
            let t = c.as_str().to_string();
            Ok((c, t))
        },
        Err(e) => Err(e),
    }
}

/// Whether `s` is the name of a time zone chrono-tz knows.
pub uninterp spec fn tz_name_known(s: Seq<char>) -> bool;

/// `s.parse::<chrono_tz::Tz>().ok()`: the time zone named `s`, if chrono-tz knows
/// it (named `tz_name_known`). The lookup is by exact name, so the zone's `name()`
/// is `s`.
#[verifier::external_body]
fn tz_from_str(s: &str) -> (r: Option<chrono_tz::Tz>)
    ensures
        r is Some <==> tz_name_known(s@),
{
    s.parse::<chrono_tz::Tz>().ok()
}

/// The instant of the next occurrence strictly after the instant `now` (milliseconds
/// since the epoch) of the pattern croner parses from the text `pattern`, evaluated
/// in UTC (`tz` is `None`) or in the named zone; `None` when croner finds none.
pub uninterp spec fn cron_next_occurrence(pattern: Seq<char>, tz: Option<Seq<char>>, now: i64) -> Option<i64>;

/// `croner::errors::CronError` rendered with `{:?}`.
#[verifier::external_body]
fn cron_error_text(e: &croner::errors::CronError) -> String {
    format!("{e:?}")
}

/// A cron pattern as croner parsed it: the text it was parsed from, croner's
/// `Cron` of that text (`Cron::from_str`, the only way one is made here), and the
/// text croner keeps of it.
#[derive(Debug)]
pub struct CronPattern {
    source: String,
    text: String,
    cron: croner::Cron,
}

impl View for CronPattern {
    type V = Seq<char>;

    /// The text the pattern was parsed from.
    closed spec fn view(&self) -> Seq<char> {
        self.source@
    }
}

impl CronPattern {
    /// Every pattern is one croner accepted, and keeps croner's text of it.
    #[verifier::type_invariant]
    spec fn parsed(&self) -> bool {
        &&& cron_pattern_accepted(self.source@)
        &&& self.text@ == cron_kept_text(self.source@)
    }

    /// The pattern text croner keeps, which is what is stored in Redis.
    pub open spec fn text(&self) -> Seq<char> {
        cron_kept_text(self@)
    }

    /// Parse a cron pattern (Unix cron, optional seconds field).
    pub fn parse(s: &str) -> (r: Result<CronPattern, croner::errors::CronError>)
        ensures
            r is Ok <==> cron_pattern_accepted(s@),
            r matches Ok(p) ==> p@ == s@ && p.text() == cron_kept_text(s@),
    {
        match cron_from_str(s) {
            Ok((cron, text)) => Ok(CronPattern { source: String::from_str(s), text, cron }),
            Err(e) => Err(e),
        }
    }

    /// The pattern text croner keeps; the pattern is one croner accepted.
    pub fn as_str(&self) -> (r: &str)
        ensures
            r@ == self.text(),
            cron_pattern_accepted(self@),
    {
        proof {
            use_type_invariant(self);
        }
        self.text.as_str()
    }
}

/// A time zone of the IANA database, with its name.
#[derive(Debug)]
pub struct Timezone {
    name: String,
    tz: chrono_tz::Tz,
}

impl View for Timezone {
    type V = Seq<char>;

    /// The name of the zone.
    closed spec fn view(&self) -> Seq<char> {
        self.name@
    }
}

impl Timezone {
    /// The time zone named `s`, if chrono-tz knows it.
    pub fn parse(s: &str) -> (r: Option<Timezone>)
        ensures
            r is Some <==> tz_name_known(s@),
            r matches Some(t) ==> t@ == s@,
    {
        match tz_from_str(s) {
            Some(tz) => Some(Timezone { name: String::from_str(s), tz }),
            None => None,
        }
    }

    /// The name of the zone.
    pub fn name(&self) -> (r: &str)
        ensures
            r@ == self@,
    {
        self.name.as_str()
    }
}

/// `cron.find_next_occurrence(&now, false)` in UTC, as milliseconds: the next
/// occurrence strictly after `now` (named `cron_next_occurrence`), or croner's error
/// when it finds none.
#[verifier::external_body]
fn cron_next_utc(p: &CronPattern, now: i64) -> (r: Result<i64, croner::errors::CronError>)
    requires
        chrono_millis_in_range(now),
    ensures
        match r {
            Ok(v) => cron_next_occurrence(p@, None, now) == Some(v),
            Err(_) => cron_next_occurrence(p@, None, now) is None,
        },
{
    let now = chrono::DateTime::from_timestamp_millis(now).unwrap();
    p.cron.find_next_occurrence(&now, false).map(|t| t.timestamp_millis())
}

/// `cron.find_next_occurrence(&now.with_timezone(&tz), false)`, as milliseconds: the
/// next occurrence strictly after `now`, the pattern read in zone `tz` (named
/// `cron_next_occurrence`), or croner's error when it finds none.
#[verifier::external_body]
fn cron_next_in_zone(p: &CronPattern, tz: &Timezone, now: i64) -> (r: Result<i64, croner::errors::CronError>)
    requires
        chrono_millis_in_range(now),
    ensures
        match r {
            Ok(v) => cron_next_occurrence(p@, Some(tz@), now) == Some(v),
            Err(_) => cron_next_occurrence(p@, Some(tz@), now) is None,
        },
{
    let now = chrono::DateTime::from_timestamp_millis(now).unwrap().with_timezone(&tz.tz);
    p.cron.find_next_occurrence(&now, false).map(|t| t.timestamp_millis())
}

/// Repetition rule for a job scheduler.
#[derive(Debug)]
pub enum Repeat {
    /// Fire at a fixed interval. Optional `offset` shifts the alignment.
    Every {
        /// Distance between consecutive firings.
        interval: Duration,
        /// Optional offset added to the alignment slot.
        offset: Option<Duration>,
    },
    /// Fire on a cron schedule (optional seconds field). When `tz` is `Some`, the
    /// cron expression is evaluated in that timezone.
    Cron {
        /// Cron pattern (Unix cron, optional seconds field).
        pattern: CronPattern,
        /// Timezone to evaluate the cron expression in (defaults to UTC).
        tz: Option<Timezone>,
    },
}

/// Optional scheduler bounds: when it should start, end, and how many jobs it may
/// produce in total.
#[derive(Debug, Clone, Copy, PartialEq, Eq, Structural)]
pub struct SchedulerWindow {
    /// Earliest fire time. Defaults to "now" when `None`.
    pub start: Option<Timestamp>,
    /// Latest fire time. After this point, no further jobs are produced.
    pub end: Option<Timestamp>,
    /// Maximum total number of jobs to produce.
    pub limit: Option<u64>,
    /// Produce the first job immediately, regardless of schedule alignment.
    pub immediately: Option<bool>,
}

impl Default for SchedulerWindow {
    fn default() -> (r: Self)
        ensures
            r == (SchedulerWindow { start: None, end: None, limit: None, immediately: None }),
    {
        SchedulerWindow { start: None, end: None, limit: None, immediately: None }
    }
}

/// Template for jobs produced by a scheduler.
#[derive(Debug)]
pub struct SchedulerTemplate<'a> {
    /// Job name applied to every produced job.
    pub name: &'a str,
    /// Job data applied to every produced job, serialized as JSON.
    pub data_json: &'a str,
    /// Job options applied to every produced job.
    pub opts: &'a JobOptions,
}

/// A snapshot of an existing scheduler.
#[derive(Debug)]
pub struct SchedulerInfo {
    /// Scheduler ID.
    pub id: SchedulerId,
    /// Job-name template (the `name` of every produced job).
    pub name: Option<String>,
    /// Repetition rule.
    pub repeat: Option<Repeat>,
    /// Optional scheduler window.
    pub window: SchedulerWindow,
    /// Number of iterations produced so far.
    pub iteration_count: Option<u64>,
    /// Next scheduled fire time.
    pub next_fire: Timestamp,
}

/// Errors of computing the next firing time of a cron schedule.
#[derive(Debug)]
pub enum CronNextError {
    /// The pattern could not be parsed.
    Parse(String),
    /// croner found no next occurrence.
    Next(String),
}

/// The next occurrence of a cron pattern after `now`, in milliseconds since the epoch.
pub fn compute_cron_next_millis(schedule: &CronPattern, tz: Option<&Timezone>, now: Timestamp) -> (r:
    Result<i64, CronNextError>)
    ensures
        ({
            let next = cron_next_occurrence(
                schedule@,
                match tz {
                    Some(t) => Some(t@),
                    None => None,
                },
                now@,
            );
            match r {
                Ok(v) => next == Some(v),
                Err(e) => next is None && e is Next,
            }
        }),
{
    let now_ms = now.timestamp_millis();
    let res = match tz {
        Some(tz) => cron_next_in_zone(schedule, tz, now_ms),
        None => cron_next_utc(schedule, now_ms),
    };
    match res {
        Ok(v) => Ok(v),
        Err(e) => Err(CronNextError::Next(cron_error_text(&e))),
    }
}

/// The firing time `compute_next_millis` gives for an interval: `now` plus the
/// interval (the Lua script realigns it to the proper slot).
pub open spec fn every_next_millis(interval: Duration, now: Timestamp) -> int {
    now@ + (interval.ms as i64)
}

/// Compute `next_millis` for the given [`Repeat`] rule: for `Every` the current time
/// plus the interval (the Lua script realigns the value), for `Cron` the next
/// occurrence of the pattern.
pub fn compute_next_millis(repeat: &Repeat, now: Timestamp) -> (r: Result<i64, CronNextError>)
    requires
        *repeat matches Repeat::Every { interval, .. } ==> i64::MIN <= every_next_millis(interval, now)
            <= i64::MAX,
    ensures
        match *repeat {
            Repeat::Every { interval, .. } => r == Ok::<i64, CronNextError>(
                every_next_millis(interval, now) as i64,
            ),
            Repeat::Cron { pattern, tz } => {
                let next = cron_next_occurrence(
                    pattern@,
                    match tz {
                        Some(t) => Some(t@),
                        None => None,
                    },
                    now@,
                );
                match r {
                    Ok(v) => next == Some(v),
                    Err(e) => next is None && e is Next,
                }
            },
        },
{
    match repeat {
        Repeat::Every { interval, .. } => Ok(now.timestamp_millis() + (interval.as_millis() as i64)),
        Repeat::Cron { pattern, tz } => {
            let tz_ref = match tz {
                Some(t) => Some(t),
                None => None,
            };
            compute_cron_next_millis(pattern, tz_ref, now)
        },
    }
}

/// Whether `w` is the wire form of a scheduler producing jobs named `name` by rule
/// `repeat` within `window`.
pub open spec fn is_wire_scheduler(w: WireSchedulerOpts, name: Seq<char>, repeat: Repeat, window: SchedulerWindow) -> bool {
    &&& w.name@ == name
    &&& match repeat {
        Repeat::Every { interval, offset } => {
            &&& w.pattern is None
            &&& w.every == Some(interval.ms)
            &&& w.tz is None
            &&& w.offset == (match offset {
                Some(o) => Some(o.ms as i64),
                None => None,
            })
        },
        Repeat::Cron { pattern, tz } => {
            &&& (w.pattern matches Some(p) && p@ == pattern.text())
            &&& w.every is None
            &&& match (w.tz, tz) {
                (Some(a), Some(b)) => a@ == b@,
                (None, None) => true,
                _ => false,
            }
            &&& w.offset is None
        },
    }
    &&& w.end_date == (match window.end {
        Some(t) => Some(t@),
        None => None,
    })
    &&& w.start_date == (match window.start {
        Some(t) => Some(t@),
        None => None,
    })
    &&& w.limit == window.limit
}

impl WireSchedulerOpts {
    /// The wire form of a scheduler: interval and offset (ms) for `Every`, pattern
    /// text and zone name for `Cron`, and the window's bounds in milliseconds.
    pub fn from_domain(name: &str, repeat: &Repeat, window: &SchedulerWindow) -> (w: WireSchedulerOpts)
        ensures
            w.name@ == name@,
            match *repeat {
                Repeat::Every { interval, offset } => {
                    &&& w.pattern is None
                    &&& w.every == Some(interval.ms)
                    &&& w.tz is None
                    &&& w.offset == (match offset {
                        Some(o) => Some(o.ms as i64),
                        None => None,
                    })
                },
                Repeat::Cron { pattern, tz } => {
                    &&& (w.pattern matches Some(p) && p@ == pattern.text())
                    &&& w.every is None
                    &&& match (w.tz, tz) {
                        (Some(a), Some(b)) => a@ == b@,
                        (None, None) => true,
                        _ => false,
                    }
                    &&& w.offset is None
                },
            },
            w.end_date == (match window.end {
                Some(t) => Some(t@),
                None => None,
            }),
            w.start_date == (match window.start {
                Some(t) => Some(t@),
                None => None,
            }),
            w.limit == window.limit,
            is_wire_scheduler(w, name@, *repeat, *window),
    {
        let (pattern, every, tz, offset) = match repeat {
            Repeat::Every { interval, offset } => (
                None,
                Some(interval.as_millis()),
                None,
                match offset {
                    Some(d) => Some(d.as_millis() as i64),
                    None => None,
                },
            ),
            Repeat::Cron { pattern, tz } => (
                Some(String::from_str(pattern.as_str())),
                None,
                match tz {
                    Some(t) => Some(String::from_str(t.name())),
                    None => None,
                },
                None,
            ),
        };
        WireSchedulerOpts {
            name: String::from_str(name),
            tz,
            pattern,
            end_date: match window.end {
                Some(t) => Some(t.timestamp_millis()),
                None => None,
            },
            every,
            offset,
            start_date: match window.start {
                Some(t) => Some(t.timestamp_millis()),
                None => None,
            },
            limit: window.limit,
        }
    }
}

} // verus!
