//! Validated identifiers for jobs and job schedulers.
use vstd::prelude::*;
use vstd::string::*;

use crate::text::{contains_char, trim, trim_spec, lemma_trim_ends, unicode_white_space};

verus! {

/// Why a raw identifier was refused.
#[derive(Debug, Clone, Copy, PartialEq, Eq, Structural)]
pub enum IdViolation {
    /// Nothing is left after trimming.
    Empty,
    /// The identifier holds a colon, Redis' key separator.
    Colon,
}

/// What validating a raw identifier gives: the trimmed identifier, or why it
/// is refused. Emptiness is checked before the colon.
pub open spec fn id_result(raw: Seq<char>) -> Result<Seq<char>, IdViolation> {
    let t = trim_spec(raw);
    if t.len() == 0 {
        Err(IdViolation::Empty)
    } else if t.contains(':') {
        Err(IdViolation::Colon)
    } else {
        Ok(t)
    }
}

/// A valid identifier: not empty, no colon, no whitespace at either end.
pub open spec fn valid_id(s: Seq<char>) -> bool {
    &&& s.len() > 0
    &&& !s.contains(':')
    &&& !unicode_white_space(s[0])
    &&& !unicode_white_space(s.last())
}

/// Trim `raw` and check it: the shared validation of job and scheduler ids.
fn validate_id(raw: &str) -> (r: Result<String, IdViolation>)
    ensures
        match (r, id_result(raw@)) {
            (Ok(s), Ok(t)) => s@ == t && valid_id(t),
            (Err(e), Err(f)) => e == f,
            _ => false,
        },
{
    let t = trim(raw);
    if t.unicode_len() == 0 {
        return Err(IdViolation::Empty);
    }
    if contains_char(t.as_str(), ':') {
        return Err(IdViolation::Colon);
    }
    proof {
        lemma_trim_ends(raw@);
    }
    Ok(t)
}

/// Validation errors of a [`SchedulerId`].
#[derive(Debug, Clone, Copy, PartialEq, Eq, Structural)]
pub enum SchedulerIdError {
    /// The id is empty after trimming.
    NotEmptyViolated,
    /// The id contains a colon.
    PredicateViolated,
}

/// Unique identifier for a job scheduler.
#[derive(Debug, PartialEq, Eq, PartialOrd, Ord, Hash)]
pub struct SchedulerId {
    id: String,
}

impl Clone for SchedulerId {
    fn clone(&self) -> (r: Self)
        ensures
            r == *self,
    {
        proof {
            use_type_invariant(self);
        }
        SchedulerId { id: self.id.clone() }
    }
}

impl View for SchedulerId {
    type V = Seq<char>;

    closed spec fn view(&self) -> Seq<char> {
        self.id@
    }
}

impl SchedulerId {
    /// Every id is valid.
    #[verifier::type_invariant]
    spec fn valid(&self) -> bool {
        valid_id(self.id@)
    }

    /// The id is valid: not empty, no colon, no whitespace at either end. True of
    /// every id, which `as_ref` lets callers learn.
    pub open spec fn wf(&self) -> bool {
        valid_id(self@)
    }

    /// Trim `raw` and accept it when it is neither empty nor holds a colon.
    pub fn try_new(raw: &str) -> (r: Result<SchedulerId, SchedulerIdError>)
        ensures
            match (r, id_result(raw@)) {
                (Ok(id), Ok(t)) => id@ == t && id.wf(),
                (Err(e), Err(IdViolation::Empty)) => e == SchedulerIdError::NotEmptyViolated,
                (Err(e), Err(IdViolation::Colon)) => e == SchedulerIdError::PredicateViolated,
                _ => false,
            },
    {
        match validate_id(raw) {
            Ok(id) => Ok(SchedulerId { id }),
            Err(IdViolation::Empty) => Err(SchedulerIdError::NotEmptyViolated),
            Err(IdViolation::Colon) => Err(SchedulerIdError::PredicateViolated),
        }
    }

    /// The id as a string slice; it is a valid id.
    pub fn as_ref(&self) -> (r: &str)
        ensures
            r@ == self@,
            self.wf(),
    {
        proof {
            use_type_invariant(self);
        }
        self.id.as_str()
    }

    /// The id as an owned string.
    pub fn into_inner(self) -> (r: String)
        ensures
            r@ == self@,
    {
        self.id
    }
}

/// The ids among `raw` that are valid, trimmed, in their order.
pub open spec fn valid_ids(raw: Seq<String>) -> Seq<Seq<char>>
    decreases raw.len(),
{
    if raw.len() == 0 {
        Seq::empty()
    } else {
        let rest = valid_ids(raw.drop_last());
        match id_result(raw.last()@) {
            Ok(t) => rest.push(t),
            Err(_) => rest,
        }
    }
}

/// The scheduler ids among the raw ids `raw` (as the `repeat` set lists them):
/// the valid ones, trimmed, in order; the others are skipped.
pub fn scheduler_ids(raw: &Vec<String>) -> (r: Vec<SchedulerId>)
    ensures
        r@.map_values(|id: SchedulerId| id@) == valid_ids(raw@),
        forall|i: int| 0 <= i < r@.len() ==> (#[trigger] r@[i]).wf(),
{
    let mut r: Vec<SchedulerId> = Vec::new();
    let mut i: usize = 0;
    while i < raw.len()
        invariant
            i <= raw@.len(),
            r@.map_values(|id: SchedulerId| id@) == valid_ids(raw@.take(i as int)),
            forall|k: int| 0 <= k < r@.len() ==> (#[trigger] r@[k]).wf(),
        decreases raw@.len() - i,
    {
        proof {
            assert(raw@.take(i + 1).drop_last() =~= raw@.take(i as int));
            assert(raw@.take(i + 1).last() == raw@[i as int]);
        }
        match SchedulerId::try_new(raw[i].as_str()) {
            Ok(id) => {
                let ghost before = r@;
                r.push(id);
                proof {
                    assert(r@.map_values(|id: SchedulerId| id@) =~= before.map_values(
                        |id: SchedulerId| id@,
                    ).push(id@));
                }
            },
            Err(_) => {},
        }
        i = i + 1;
    }
    proof {
        assert(raw@.take(raw@.len() as int) =~= raw@);
    }
    r
}

/// Validation errors of a [`JobId`].
#[derive(Debug, Clone, Copy, PartialEq, Eq, Structural)]
pub enum JobIdError {
    /// The id is empty after trimming.
    NotEmptyViolated,
    /// The id contains a colon.
    PredicateViolated,
}

/// Wraps a String and guarantees it to be a valid (Redis compatible) ID for jobs.
#[derive(Debug, PartialEq, Eq, PartialOrd, Ord, Hash)]
pub struct JobId {
    id: String,
}

impl Clone for JobId {
    fn clone(&self) -> (r: Self)
        ensures
            r == *self,
    {
        proof {
            use_type_invariant(self);
        }
        JobId { id: self.id.clone() }
    }
}

impl View for JobId {
    type V = Seq<char>;

    closed spec fn view(&self) -> Seq<char> {
        self.id@
    }
}

impl JobId {
    /// Every id is valid.
    #[verifier::type_invariant]
    spec fn valid(&self) -> bool {
        valid_id(self.id@)
    }

    /// The id is valid: not empty, no colon, no whitespace at either end. True of
    /// every id, which `as_ref` lets callers learn.
    pub open spec fn wf(&self) -> bool {
        valid_id(self@)
    }

    /// Trim `raw` and accept it when it is neither empty nor holds a colon.
    pub fn try_new(raw: &str) -> (r: Result<JobId, JobIdError>)
        ensures
            match (r, id_result(raw@)) {
                (Ok(id), Ok(t)) => id@ == t && id.wf(),
                (Err(e), Err(IdViolation::Empty)) => e == JobIdError::NotEmptyViolated,
                (Err(e), Err(IdViolation::Colon)) => e == JobIdError::PredicateViolated,
                _ => false,
            },
    {
        match validate_id(raw) {
            Ok(id) => Ok(JobId { id }),
            Err(IdViolation::Empty) => Err(JobIdError::NotEmptyViolated),
            Err(IdViolation::Colon) => Err(JobIdError::PredicateViolated),
        }
    }

    /// The id as a string slice; it is a valid id.
    pub fn as_ref(&self) -> (r: &str)
        ensures
            r@ == self@,
            self.wf(),
    {
        proof {
            use_type_invariant(self);
        }
        self.id.as_str()
    }

    /// The id as an owned string.
    pub fn into_inner(self) -> (r: String)
        ensures
            r@ == self@,
    {
        self.id
    }
}

/// Validating an id that is already valid gives it back unchanged.
pub proof fn lemma_valid_id_is_fixed_point(s: Seq<char>)
    requires
        valid_id(s),
    ensures
        id_result(s) == Ok::<Seq<char>, IdViolation>(s),
{
    crate::text::lemma_trim_of_trimmed(s);
}

} // verus!
