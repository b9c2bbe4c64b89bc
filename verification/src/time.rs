//! Spans of time and instants, both in whole milliseconds, as BullMQ keeps them.
use vstd::prelude::*;

verus! {

/// A span of time in whole milliseconds.
#[derive(Debug, Clone, Copy, PartialEq, Eq, PartialOrd, Ord, Hash, Structural)]
pub struct Duration {
    /// Length of the span in milliseconds.
    pub ms: u64,
}

impl Duration {
    /// A span of `ms` milliseconds.
    pub fn from_millis(ms: u64) -> (r: Duration)
        ensures
            r.ms == ms,
    {
        Duration { ms }
    }

    /// A span of `secs` seconds.
    pub fn from_secs(secs: u64) -> (r: Duration)
        requires
            secs * 1000 <= u64::MAX,
        ensures
            r.ms == secs * 1000,
    {
        Duration { ms: secs * 1000 }
    }

    /// The empty span.
    pub fn zero() -> (r: Duration)
        ensures
            r.ms == 0,
    {
        Duration { ms: 0 }
    }

    /// Length of the span in milliseconds.
    pub fn as_millis(&self) -> (r: u64)
        ensures
            r == self.ms,
    {
        self.ms
    }

    /// Half of the span, rounded down to the millisecond.
    pub fn half(&self) -> (r: Duration)
        ensures
            r.ms == self.ms / 2,
    {
        Duration { ms: self.ms / 2 }
    }
}

/// The earliest instant chrono represents, in milliseconds since the Unix epoch:
/// January 1 of the year -262143 (its `NaiveDate::MIN`), midnight UTC.
pub const MIN_MILLIS: i64 = -8_334_601_228_800_000;

/// The latest instant chrono represents, in milliseconds since the Unix epoch: the
/// last millisecond of December 31 of the year 262142 (its `NaiveDate::MAX`).
pub const MAX_MILLIS: i64 = 8_210_266_876_799_999;

/// Whether chrono can represent the instant `ms` milliseconds after the Unix epoch
/// as a `DateTime<Utc>`: whether `DateTime::from_timestamp_millis(ms)` is `Some`.
pub open spec fn chrono_millis_in_range(ms: i64) -> bool {
    MIN_MILLIS <= ms <= MAX_MILLIS
}

/// `chrono::Utc::now().timestamp_millis()`: the current time. Every instant chrono
/// hands out lies within the range it accepts back. `Utc::now` panics when the
/// system clock reads before the Unix epoch, a state of the machine that no
/// precondition can rule out.
#[verifier::external_body]
fn chrono_now_millis() -> (r: i64)
    ensures
        chrono_millis_in_range(r),
{
    chrono::Utc::now().timestamp_millis()
}

/// An instant in UTC, in milliseconds since the Unix epoch, within the range
/// chrono can represent.
#[derive(Debug, Clone, Copy, PartialEq, Eq, PartialOrd, Ord, Hash, Structural)]
pub struct Timestamp {
    ms: i64,
}

impl View for Timestamp {
    type V = i64;

    closed spec fn view(&self) -> i64 {
        self.ms
    }
}

impl Timestamp {
    /// Every timestamp is an instant chrono can represent.
    #[verifier::type_invariant]
    spec fn representable(&self) -> bool {
        chrono_millis_in_range(self.ms)
    }

    /// The instant is one chrono can represent; true of every timestamp, which
    /// `timestamp_millis` lets callers learn.
    pub open spec fn wf(&self) -> bool {
        chrono_millis_in_range(self@)
    }

    /// The instant `ms` milliseconds after the Unix epoch, if chrono can represent it
    /// (`DateTime::from_timestamp_millis`).
    pub fn from_millis(ms: i64) -> (r: Option<Timestamp>)
        ensures
            r is Some <==> chrono_millis_in_range(ms),
            r matches Some(t) ==> t@ == ms && t.wf(),
    {
        if MIN_MILLIS <= ms && ms <= MAX_MILLIS {
            Some(Timestamp { ms })
        } else {
            None
        }
    }

    /// The Unix epoch, `DateTime::<Utc>::default()`.
    pub fn epoch() -> (r: Timestamp)
        ensures
            r@ == 0,
            r.wf(),
    {
        Timestamp { ms: 0 }
    }

    /// The current time.
    pub fn now() -> (r: Timestamp)
        ensures
            r.wf(),
    {
        Timestamp { ms: chrono_now_millis() }
    }

    /// Milliseconds since the Unix epoch, an instant chrono can represent.
    pub fn timestamp_millis(&self) -> (r: i64)
        ensures
            r == self@,
            self.wf(),
    {
        proof {
            use_type_invariant(self);
        }
        self.ms
    }
}

} // verus!
