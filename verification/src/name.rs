//! Validated queue names and the Redis key layout of a queue.
use vstd::prelude::*;
use vstd::string::*;

use crate::text::{contains_char, trim, trim_spec, lemma_trim_ends, unicode_white_space};

verus! {

/// There are multiple reasons why a queue name is invalid.
#[derive(Debug, Clone, Copy, PartialEq, Eq, Structural)]
pub enum InvalidQueueName {
    /// Queue name contained colon, which is forbidden, as it
    /// is handled specially by Redis.
    Colon,
    /// A queue name can't be empty.
    Empty,
}

impl InvalidQueueName {
    /// Human readable description of the error.
    pub fn message(&self) -> (r: &'static str)
        ensures
            r@ == match self {
                InvalidQueueName::Colon => "queue name can't contain a colon, as that's a separator used by redis"@,
                InvalidQueueName::Empty => "queue name can't be empty"@,
            },
    {
        match self {
            InvalidQueueName::Colon => "queue name can't contain a colon, as that's a separator used by redis",
            InvalidQueueName::Empty => "queue name can't be empty",
        }
    }
}

/// A queue name is valid when it is not empty, holds no colon and has no
/// whitespace at either end.
pub open spec fn valid_queue_name(s: Seq<char>) -> bool {
    &&& s.len() > 0
    &&& !s.contains(':')
    &&& !unicode_white_space(s[0])
    &&& !unicode_white_space(s.last())
}

/// The Redis key `bull:<name><suffix>`.
pub open spec fn queue_key(name: Seq<char>, suffix: Seq<char>) -> Seq<char> {
    "bull:"@ + name + suffix
}

/// What `QueueName::new` makes of a raw name: the trimmed name, or why it is refused.
pub open spec fn queue_name_result(raw: Seq<char>) -> Result<Seq<char>, InvalidQueueName> {
    let t = trim_spec(raw);
    if t.contains(':') {
        Err(InvalidQueueName::Colon)
    } else if t.len() == 0 {
        Err(InvalidQueueName::Empty)
    } else {
        Ok(t)
    }
}

/// A validated queue name. Colons and empty strings are rejected.
#[derive(Debug, PartialEq, Eq)]
pub struct QueueName {
    name: String,
}

impl Clone for QueueName {
    fn clone(&self) -> (r: Self)
        ensures
            r == *self,
    {
        proof {
            use_type_invariant(self);
        }
        QueueName { name: self.name.clone() }
    }
}

impl View for QueueName {
    type V = Seq<char>;

    closed spec fn view(&self) -> Seq<char> {
        self.name@
    }
}

impl QueueName {
    /// Every queue name is valid.
    #[verifier::type_invariant]
    spec fn valid(&self) -> bool {
        valid_queue_name(self.name@)
    }

    /// The name is valid: not empty, no colon, no whitespace at either end. True of
    /// every queue name, which `as_str` lets callers learn.
    pub open spec fn wf(&self) -> bool {
        valid_queue_name(self@)
    }

    /// Name of a queue. Will be trimmed and then has to be non-empty
    /// and not contain colons.
    pub fn new(name: &str) -> (r: Result<QueueName, InvalidQueueName>)
        ensures
            match (r, queue_name_result(name@)) {
                (Ok(q), Ok(t)) => q@ == t && q.wf(),
                (Err(e), Err(f)) => e == f,
                _ => false,
            },
    {
        let t = trim(name);
        if contains_char(t.as_str(), ':') {
            return Err(InvalidQueueName::Colon);
        }
        if t.unicode_len() == 0 {
            return Err(InvalidQueueName::Empty);
        }
        proof {
            lemma_trim_ends(name@);
        }
        Ok(QueueName { name: t })
    }

    /// Dereference the name as a &str; it is a valid name.
    pub fn as_str(&self) -> (r: &str)
        ensures
            r@ == self@,
            self.wf(),
    {
        proof {
            use_type_invariant(self);
        }
        self.name.as_str()
    }

    fn key_with(&self, suffix: &str) -> (r: String)
        ensures
            r@ == queue_key(self@, suffix@),
    {
        let mut r = String::from_str("bull:");
        r.append(self.name.as_str());
        r.append(suffix);
        r
    }

    /// `bull:<name>:`, the prefix of every key of the queue.
    pub fn prefix(&self) -> (r: String)
        ensures
            r@ == queue_key(self@, ":"@),
    {
        self.key_with(":")
    }

    /// `bull:<name>:`, the base key handed to scripts that address all keys of the queue.
    pub fn base(&self) -> (r: String)
        ensures
            r@ == queue_key(self@, ":"@),
    {
        self.key_with(":")
    }

    /// The list of jobs being worked on.
    pub fn active(&self) -> (r: String)
        ensures
            r@ == queue_key(self@, ":active"@),
    {
        self.key_with(":active")
    }

    /// The set of completed jobs.
    pub fn completed(&self) -> (r: String)
        ensures
            r@ == queue_key(self@, ":completed"@),
    {
        self.key_with(":completed")
    }

    /// The sorted set of delayed jobs.
    pub fn delayed(&self) -> (r: String)
        ensures
            r@ == queue_key(self@, ":delayed"@),
    {
        self.key_with(":delayed")
    }

    /// The event stream of the queue.
    pub fn events(&self) -> (r: String)
        ensures
            r@ == queue_key(self@, ":events"@),
    {
        self.key_with(":events")
    }

    /// The set of failed jobs.
    pub fn failed(&self) -> (r: String)
        ensures
            r@ == queue_key(self@, ":failed"@),
    {
        self.key_with(":failed")
    }

    /// The counter from which job ids are drawn.
    pub fn id(&self) -> (r: String)
        ensures
            r@ == queue_key(self@, ":id"@),
    {
        self.key_with(":id")
    }

    /// The hash of a single job.
    pub fn job(&self, job_id: &str) -> (r: String)
        ensures
            r@ == queue_key(self@, ":"@ + job_id@),
    {
        let mut r = self.key_with(":");
        r.append(job_id);
        proof {
            assert(r@ =~= queue_key(self@, ":"@ + job_id@));
        }
        r
    }

    /// The lock of a single job.
    pub fn job_lock(&self, job_id: &str) -> (r: String)
        ensures
            r@ == queue_key(self@, ":"@ + job_id@ + ":lock"@),
    {
        let mut r = self.job(job_id);
        r.append(":lock");
        proof {
            assert(r@ =~= queue_key(self@, ":"@ + job_id@ + ":lock"@));
        }
        r
    }

    /// The log lines of a single job.
    pub fn job_logs(&self, job_id: &str) -> (r: String)
        ensures
            r@ == queue_key(self@, ":"@ + job_id@ + ":logs"@),
    {
        let mut r = self.job(job_id);
        r.append(":logs");
        proof {
            assert(r@ =~= queue_key(self@, ":"@ + job_id@ + ":logs"@));
        }
        r
    }

    /// The rate limiter counter.
    pub fn limiter(&self) -> (r: String)
        ensures
            r@ == queue_key(self@, ":limiter"@),
    {
        self.key_with(":limiter")
    }

    /// A sorted set of markers that wake up workers waiting for jobs.
    pub fn marker(&self) -> (r: String)
        ensures
            r@ == queue_key(self@, ":marker"@),
    {
        self.key_with(":marker")
    }

    /// A hash map with global configuration of the queue, like whether it is
    /// paused or its rate limits.
    pub fn meta(&self) -> (r: String)
        ensures
            r@ == queue_key(self@, ":meta"@),
    {
        self.key_with(":meta")
    }

    /// The list jobs are moved to while the queue is paused.
    pub fn paused(&self) -> (r: String)
        ensures
            r@ == queue_key(self@, ":paused"@),
    {
        self.key_with(":paused")
    }

    /// The sorted set of prioritized jobs.
    pub fn prioritized(&self) -> (r: String)
        ensures
            r@ == queue_key(self@, ":prioritized"@),
    {
        self.key_with(":prioritized")
    }

    /// The counter that orders jobs of equal priority.
    pub fn priority_counter(&self) -> (r: String)
        ensures
            r@ == queue_key(self@, ":pc"@),
    {
        self.key_with(":pc")
    }

    /// The set of jobs that missed their lock refresh.
    pub fn stalled(&self) -> (r: String)
        ensures
            r@ == queue_key(self@, ":stalled"@),
    {
        self.key_with(":stalled")
    }

    /// The key that throttles the stalled-job check.
    pub fn stalled_check(&self) -> (r: String)
        ensures
            r@ == queue_key(self@, ":stalled-check"@),
    {
        self.key_with(":stalled-check")
    }

    /// The list of job ids ready to be picked up by a worker.
    pub fn wait(&self) -> (r: String)
        ensures
            r@ == queue_key(self@, ":wait"@),
    {
        self.key_with(":wait")
    }

    /// The metrics of the queue.
    pub fn metrics(&self) -> (r: String)
        ensures
            r@ == queue_key(self@, ":metrics"@),
    {
        self.key_with(":metrics")
    }

    /// The sorted set of job schedulers.
    pub fn repeat(&self) -> (r: String)
        ensures
            r@ == queue_key(self@, ":repeat"@),
    {
        self.key_with(":repeat")
    }
}

/// Naming a queue by a name that is already valid gives that very name back: the
/// name of a queue, passed to `QueueName::new` again, names the same queue.
pub proof fn lemma_valid_name_is_fixed_point(s: Seq<char>)
    requires
        valid_queue_name(s),
    ensures
        queue_name_result(s) == Ok::<Seq<char>, InvalidQueueName>(s),
{
    crate::text::lemma_trim_of_trimmed(s);
}

/// Every key of a queue that continues with a colon begins with the queue's prefix.
pub proof fn lemma_key_extends_prefix(name: Seq<char>, rest: Seq<char>)
    ensures
        queue_key(name, ":"@ + rest) =~= queue_key(name, ":"@) + rest,
{
}

/// Two queues with different names never share a Redis key: the name is the part of
/// a key between `bull:` and the next colon.
pub proof fn lemma_keys_of_distinct_queues_differ(
    a: Seq<char>,
    b: Seq<char>,
    rest_a: Seq<char>,
    rest_b: Seq<char>,
)
    requires
        valid_queue_name(a),
        valid_queue_name(b),
        a != b,
    ensures
        queue_key(a, ":"@ + rest_a) != queue_key(b, ":"@ + rest_b),
{
    reveal_strlit("bull:");
    reveal_strlit(":");
    let ka = queue_key(a, ":"@ + rest_a);
    let kb = queue_key(b, ":"@ + rest_b);
    if ka == kb {
        if a.len() == b.len() {
            assert forall|i: int| 0 <= i < a.len() implies a[i] == b[i] by {
                assert(ka[5 + i] == a[i]);
                assert(kb[5 + i] == b[i]);
            }
            assert(a =~= b);
        } else if a.len() < b.len() {
            assert(ka[5 + a.len() as int] == ':');
            assert(kb[5 + a.len() as int] == b[a.len() as int]);
            assert(b.contains(':'));
        } else {
            assert(kb[5 + b.len() as int] == ':');
            assert(ka[5 + b.len() as int] == a[b.len() as int]);
            assert(a.contains(':'));
        }
    }
}

} // verus!
