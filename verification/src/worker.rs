//! The decisions of a worker's background loops: how a pulling connection names
//! its job locks and how long it waits after an answer of `moveToActive`, which
//! locks the lock refresher extends, and how a sleep that a shutdown can cut
//! short ends.
use vstd::prelude::*;

use crate::active::MoveToActiveOk;
use crate::text::{decimal, lemma_decimal_injective, push_decimal};
use crate::time::{Duration, Timestamp};

verus! {

/// Parameterize a worker. The defaults should be fine for most use cases.
/// For high performance applications, try increasing `parallel_jobs` and `parallel_connections`.
#[derive(Clone, Debug)]
pub struct WorkerArgs {
    /// How many jobs should a worker work at once at max.
    /// Parallel jobs should be more than `parallel_connections` to be meaningful.
    /// Defaults to 32.
    pub parallel_jobs: usize,
    /// How many parallel connections should a worker have to the Redis database.
    /// Defaults to 1.
    pub parallel_connections: usize,
    /// After this many stalls a job is marked as failed.
    /// Defaults to 1.
    pub max_stalled_before_failed: usize,
    /// After this much time a job is marked as stalled; workers refresh their locks
    /// after half of it. Defaults to 30s.
    pub stalled_after: Duration,
    /// How long a pulling connection sleeps after it failed to pull the next job.
    /// Defaults to 3s.
    pub cooldown_after_error: Duration,
}

impl Default for WorkerArgs {
    fn default() -> (r: Self)
        ensures
            r.parallel_jobs == 32,
            r.parallel_connections == 1,
            r.max_stalled_before_failed == 1,
            r.stalled_after.ms == 30_000,
            r.cooldown_after_error.ms == 3_000,
    {
        WorkerArgs {
            parallel_jobs: 32,
            parallel_connections: 1,
            max_stalled_before_failed: 1,
            stalled_after: Duration::from_secs(30),
            cooldown_after_error: Duration::from_secs(3),
        }
    }
}

/// The size the connection pool of a queue is grown to for a worker with
/// `parallel_connections` connections: twice that many, when the pool is smaller;
/// `None` when it is big enough already.
pub fn pool_size_for(current_max: usize, parallel_connections: usize) -> (r: Option<usize>)
    requires
        parallel_connections * 2 <= usize::MAX,
    ensures
        r == (if current_max < parallel_connections * 2 {
            Some((parallel_connections * 2) as usize)
        } else {
            None
        }),
{
    let wanted = parallel_connections * 2;
    if current_max < wanted {
        Some(wanted)
    } else {
        None
    }
}

/// How a sleep that a shutdown may cut short ended.
#[derive(Debug, Clone, Copy, PartialEq, Eq, Structural)]
pub enum ShutdownSleep {
    /// Worker is being shut down
    Shutdown,
    /// Regular sleep finished
    Slept,
}

/// The outcome of a sleep: a switch already off when the sleep should start ends it
/// at once as a shutdown, and so does a shutdown that came before the time was up.
pub fn sleep_outcome(running_at_start: bool, shut_down_in_time: bool) -> (r: ShutdownSleep)
    ensures
        r == (if !running_at_start || shut_down_in_time {
            ShutdownSleep::Shutdown
        } else {
            ShutdownSleep::Slept
        }),
{
    if !running_at_start {
        ShutdownSleep::Shutdown
    } else if shut_down_in_time {
        ShutdownSleep::Shutdown
    } else {
        ShutdownSleep::Slept
    }
}

/// What befalls a shutdown switch: it is turned off, or only looked at (read, or
/// slept on).
#[derive(Debug, Clone, Copy, PartialEq, Eq, Structural)]
pub enum SwitchEvent {
    /// `shutdown` is called on the switch or one of its clones.
    ShutDown,
    /// The switch is read or slept on, which leaves it as it is.
    Observe,
}

/// Whether a switch runs after `e`, when it ran before exactly if `running`.
pub open spec fn switch_after(running: bool, e: SwitchEvent) -> bool {
    match e {
        SwitchEvent::ShutDown => false,
        SwitchEvent::Observe => running,
    }
}

/// Whether a switch runs after the events `es`, in order.
pub open spec fn switch_after_all(running: bool, es: Seq<SwitchEvent>) -> bool
    decreases es.len(),
{
    if es.len() == 0 {
        running
    } else {
        switch_after(switch_after_all(running, es.drop_last()), es.last())
    }
}

/// Whether the switch still runs after `e`.
pub fn next_running(running: bool, e: SwitchEvent) -> (r: bool)
    ensures
        r == switch_after(running, e),
{
    match e {
        SwitchEvent::ShutDown => false,
        SwitchEvent::Observe => running,
    }
}

/// A switch that is off stays off, whatever befalls it afterwards.
pub proof fn lemma_switch_stays_off(es: Seq<SwitchEvent>)
    ensures
        !switch_after_all(false, es),
    decreases es.len(),
{
    if es.len() > 0 {
        lemma_switch_stays_off(es.drop_last());
    }
}

/// Once a switch has been shut down, at any point of its history, it is off from
/// then on: the switch runs at the end only if it was running at the start and no
/// event shut it down.
pub proof fn lemma_shutdown_is_final(running: bool, es: Seq<SwitchEvent>)
    ensures
        switch_after_all(running, es) <==> (running && forall|i: int| 0 <= i < es.len() ==> es[i]
            == SwitchEvent::Observe),
    decreases es.len(),
{
    if es.len() > 0 {
        lemma_shutdown_is_final(running, es.drop_last());
        assert forall|i: int| 0 <= i < es.len() - 1 implies #[trigger] es.drop_last()[i] == es[i] by {}
        if es.last() == SwitchEvent::Observe && running && (forall|i: int|
            0 <= i < es.len() - 1 ==> es.drop_last()[i] == SwitchEvent::Observe) {
            assert forall|i: int| 0 <= i < es.len() implies es[i] == SwitchEvent::Observe by {
                if i < es.len() - 1 {
                    assert(es.drop_last()[i] == es[i]);
                }
            }
        }
        if es.last() == SwitchEvent::ShutDown {
            assert(es[es.len() - 1] != SwitchEvent::Observe);
        }
    }
}

/// What a pulling connection does once it has handed on the error that it could
/// not get a Redis connection.
#[derive(Debug, Clone, Copy, PartialEq, Eq, Structural)]
pub enum PullErrorStep {
    /// Stop pulling.
    Stop,
    /// Sleep this long, then try again.
    CoolDown(Duration),
}

/// After a failure to get a connection: stop when nobody receives the worker's
/// results any more or the pool has been closed (a fatal error), otherwise cool
/// down for `cooldown` and try again.
pub fn after_pull_error(receiver_gone: bool, pool_closed: bool, cooldown: Duration) -> (r:
    PullErrorStep)
    ensures
        r == (if receiver_gone || pool_closed {
            PullErrorStep::Stop
        } else {
            PullErrorStep::CoolDown(cooldown)
        }),
{
    if receiver_gone {
        PullErrorStep::Stop
    } else if pool_closed {
        PullErrorStep::Stop
    } else {
        PullErrorStep::CoolDown(cooldown)
    }
}

/// How long a pulling connection waits for the marker when the queue has nothing to do.
pub open spec fn idle_wait_millis() -> u64 {
    10_000
}

/// The lock token of the `counter`-th job that a pulling connection takes:
/// the connection's id, a hyphen and the counter in decimal.
pub open spec fn lock_token_text(worker_id: Seq<char>, counter: nat) -> Seq<char> {
    worker_id + seq!['-'] + decimal(counter)
}

/// A pulling connection never hands out one lock token twice: tokens with different
/// counters differ.
pub proof fn lemma_lock_tokens_distinct(worker_id: Seq<char>, a: nat, b: nat)
    requires
        a != b,
    ensures
        lock_token_text(worker_id, a) != lock_token_text(worker_id, b),
{
    let p = worker_id + seq!['-'];
    if lock_token_text(worker_id, a) == lock_token_text(worker_id, b) {
        assert(lock_token_text(worker_id, a).skip(p.len() as int) =~= decimal(a));
        assert(lock_token_text(worker_id, b).skip(p.len() as int) =~= decimal(b));
        lemma_decimal_injective(a, b);
    }
}

/// The state a pulling connection keeps from one pull to the next.
#[derive(Debug, Clone)]
pub struct PullState {
    /// The id of the connection, the prefix of its lock tokens.
    pub worker_id: String,
    /// How many lock tokens the connection has handed out.
    pub counter: usize,
}

impl PullState {
    /// A connection that has handed out no token yet.
    pub fn new(worker_id: String) -> (r: PullState)
        ensures
            r.worker_id == worker_id,
            r.counter == 0,
    {
        PullState { worker_id, counter: 0 }
    }

    /// The lock token for the next job, and one more token handed out.
    pub fn next_token(&mut self) -> (r: String)
        requires
            old(self).counter < usize::MAX,
        ensures
            r@ == lock_token_text(old(self).worker_id@, old(self).counter as nat),
            final(self).worker_id == old(self).worker_id,
            final(self).counter == old(self).counter + 1,
    {
        let mut token = self.worker_id.clone();
        token.append("-");
        push_decimal(&mut token, self.counter);
        proof {
            reveal_strlit("-");
            assert(token@ =~= lock_token_text(self.worker_id@, self.counter as nat));
        }
        self.counter = self.counter + 1;
        token
    }
}

/// Milliseconds from `now` until `due`, or none when `due` has passed.
pub open spec fn millis_until(due: i64, now: i64) -> int {
    if due - now > 0 {
        due - now
    } else {
        0
    }
}

/// How long a pulling connection waits for the marker after `moveToActive` answered
/// `answer` at `now`: not at all after a job; the delay it was told; until the
/// timestamp it was told (nothing once that has passed); ten seconds when there is
/// nothing to do.
pub open spec fn wait_after_pull<D>(answer: MoveToActiveOk<D>, now: i64) -> Option<u64> {
    match answer {
        MoveToActiveOk::JobData { .. } => None,
        MoveToActiveOk::Delay { delay } => Some(delay.ms),
        MoveToActiveOk::WaitUntil { timestamp } => Some(millis_until(timestamp@, now) as u64),
        MoveToActiveOk::NothingToDo => Some(idle_wait_millis()),
    }
}

/// How long to wait for the marker after `moveToActive` answered `answer` at `now`.
pub fn pull_wait<D>(answer: &MoveToActiveOk<D>, now: Timestamp) -> (r: Option<Duration>)
    ensures
        match (r, wait_after_pull(*answer, now@)) {
            (Some(d), Some(ms)) => d.ms == ms,
            (None, None) => true,
            _ => false,
        },
{
    match answer {
        MoveToActiveOk::JobData { .. } => None,
        MoveToActiveOk::Delay { delay } => Some(*delay),
        MoveToActiveOk::WaitUntil { timestamp } => {
            let due: i128 = timestamp.timestamp_millis() as i128;
            let current: i128 = now.timestamp_millis() as i128;
            if due - current > 0 {
                let ms: u64 = (due - current) as u64;
                Some(Duration::from_millis(ms))
            } else {
                Some(Duration::zero())
            }
        },
        MoveToActiveOk::NothingToDo => Some(Duration::from_secs(10)),
    }
}

/// The jobs whose lock token is still held, in the order of `entries`.
pub open spec fn live_ids(entries: Seq<(String, Option<String>)>) -> Seq<Seq<char>>
    decreases entries.len(),
{
    if entries.len() == 0 {
        Seq::empty()
    } else {
        let rest = live_ids(entries.drop_last());
        match entries.last().1 {
            Some(_) => rest.push(entries.last().0@),
            None => rest,
        }
    }
}

/// The tokens still held, in the order of `entries`.
pub open spec fn live_tokens(entries: Seq<(String, Option<String>)>) -> Seq<Seq<char>>
    decreases entries.len(),
{
    if entries.len() == 0 {
        Seq::empty()
    } else {
        let rest = live_tokens(entries.drop_last());
        match entries.last().1 {
            Some(t) => rest.push(t@),
            None => rest,
        }
    }
}

/// What the lock refresher does next.
#[derive(Debug, Clone)]
pub enum RefreshStep {
    /// No lock is held: sleep for this long.
    Sleep(Duration),
    /// Extend the locks of these jobs, held under these tokens, then sleep.
    Extend {
        /// The jobs whose locks are extended.
        job_ids: Vec<String>,
        /// Their tokens, in the same order.
        tokens: Vec<String>,
    },
}

/// The texts of a list of strings.
pub open spec fn texts_of(v: Seq<String>) -> Seq<Seq<char>> {
    v.map_values(|s: String| s@)
}

/// The next step of the lock refresher: `entries` are the jobs it watches with their
/// token, `None` where the job has let its token go. It extends the live locks, and
/// sleeps for half the lock duration when there are none.
pub fn plan_refresh(entries: &Vec<(String, Option<String>)>, lock_duration: Duration) -> (r:
    RefreshStep)
    ensures
        live_ids(entries@).len() == 0 ==> r == RefreshStep::Sleep(Duration { ms: lock_duration.ms / 2 }),
        live_ids(entries@).len() > 0 ==> (r matches RefreshStep::Extend { job_ids, tokens } && texts_of(
            job_ids@,
        ) == live_ids(entries@) && texts_of(tokens@) == live_tokens(entries@)),
{
    let mut job_ids: Vec<String> = Vec::new();
    let mut tokens: Vec<String> = Vec::new();
    let mut i: usize = 0;
    while i < entries.len()
        invariant
            i <= entries@.len(),
            texts_of(job_ids@) == live_ids(entries@.take(i as int)),
            texts_of(tokens@) == live_tokens(entries@.take(i as int)),
        decreases entries@.len() - i,
    {
        proof {
            assert(entries@.take(i + 1).drop_last() =~= entries@.take(i as int));
            assert(entries@.take(i + 1).last() == entries@[i as int]);
        }
        match &entries[i].1 {
            Some(t) => {
                let id = entries[i].0.clone();
                let tok = t.clone();
                proof {
                    assert(texts_of(job_ids@.push(id)) =~= texts_of(job_ids@).push(id@));
                    assert(texts_of(tokens@.push(tok)) =~= texts_of(tokens@).push(tok@));
                }
                job_ids.push(id);
                tokens.push(tok);
            },
            None => {},
        }
        i = i + 1;
    }
    proof {
        assert(entries@.take(entries@.len() as int) =~= entries@);
    }
    if job_ids.len() == 0 {
        RefreshStep::Sleep(lock_duration.half())
    } else {
        RefreshStep::Extend { job_ids, tokens }
    }
}

} // verus!
