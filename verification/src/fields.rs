//! The fields of a job's Redis hash, as the scripts hand them out: lookup and
//! decoding of single fields.
use vstd::prelude::*;
use vstd::string::*;
use vstd::utf8::{decode_utf8, valid_utf8};

use crate::number::{digits_only, digits_value};
use crate::errors::{MoveToActiveErr, RedisHashMapError};
use crate::reply::{string_from_utf8, Reply};
use crate::time::{chrono_millis_in_range, Duration, Timestamp};

verus! {

/// The value of `key` among `fields`; a later field overrides an earlier one with
/// the same name, as when the fields are inserted into a hash map in order.
pub open spec fn lookup(fields: Seq<(String, String)>, key: Seq<char>) -> Option<Seq<char>>
    decreases fields.len(),
{
    if fields.len() == 0 {
        None
    } else if fields.last().0@ == key {
        Some(fields.last().1@)
    } else {
        lookup(fields.drop_last(), key)
    }
}

/// The value of the field `key`, if present.
pub fn field(fields: &Vec<(String, String)>, key: &str) -> (r: Option<String>)
    ensures
        match (r, lookup(fields@, key@)) {
            (Some(v), Some(t)) => v@ == t,
            (None, None) => true,
            _ => false,
        },
{
    let k = String::from_str(key);
    let mut i: usize = fields.len();
    assert(fields@.take(fields@.len() as int) =~= fields@);
    while i > 0
        invariant
            i <= fields@.len(),
            k@ == key@,
            lookup(fields@, key@) == lookup(fields@.take(i as int), key@),
        decreases i,
    {
        proof {
            assert(fields@.take(i as int).drop_last() =~= fields@.take(i - 1));
            assert(fields@.take(i as int).last() == fields@[i - 1]);
        }
        if fields[i - 1].0 == k {
            return Some(fields[i - 1].1.clone());
        }
        i = i - 1;
    }
    None
}

/// JSON whitespace: space, line feed, tab and carriage return.
pub open spec fn json_ws(c: char) -> bool {
    c == ' ' || c == '\n' || c == '\t' || c == '\r'
}

/// `s` without the JSON whitespace it starts with.
pub open spec fn skip_json_ws(s: Seq<char>) -> Seq<char>
    decreases s.len(),
{
    if s.len() > 0 && json_ws(s[0]) {
        skip_json_ws(s.drop_first())
    } else {
        s
    }
}

/// `s` without the JSON whitespace it ends with.
pub open spec fn cut_json_ws(s: Seq<char>) -> Seq<char>
    decreases s.len(),
{
    if s.len() > 0 && json_ws(s.last()) {
        cut_json_ws(s.drop_last())
    } else {
        s
    }
}

/// The JSON text `s` without the whitespace around its value.
pub open spec fn json_token(s: Seq<char>) -> Seq<char> {
    cut_json_ws(skip_json_ws(s))
}

/// Whether `d` is the digits of a JSON number: no leading zero, but in `0` itself.
pub open spec fn json_digits(d: Seq<char>) -> bool {
    digits_only(d) && (d.len() == 1 || d[0] != '0')
}

/// The integer a JSON number token without fraction or exponent hands to an integer
/// type: a value from 0 to `u64::MAX`, or a negative one down to -2^63 (larger
/// magnitudes, and `-0`, are read as floating point and refused).
pub open spec fn json_integer(t: Seq<char>) -> Option<int> {
    if t.len() > 0 && t[0] == '-' {
        let d = t.drop_first();
        if json_digits(d) && 1 <= digits_value(d) <= 0x8000_0000_0000_0000 {
            Some(-(digits_value(d) as int))
        } else {
            None
        }
    } else if json_digits(t) && digits_value(t) <= u64::MAX {
        Some(digits_value(t) as int)
    } else {
        None
    }
}

/// What `serde_json::from_str::<i64>(s)` gives: the integer of the JSON text, when it
/// is one in range.
pub open spec fn json_i64(s: Seq<char>) -> Option<i64> {
    match json_integer(json_token(s)) {
        Some(v) => if i64::MIN <= v <= i64::MAX {
            Some(v as i64)
        } else {
            None
        },
        None => None,
    }
}

/// Whether the JSON text `s` is `null`.
pub open spec fn json_null(s: Seq<char>) -> bool {
    json_token(s) == seq!['n', 'u', 'l', 'l']
}

/// What `serde_json::from_str::<Option<usize>>(s)` gives: `null`, or a non-negative
/// integer in range.
pub open spec fn json_opt_usize(s: Seq<char>) -> Option<Option<usize>> {
    if json_null(s) {
        Some(None)
    } else {
        match json_integer(json_token(s)) {
            Some(v) => if 0 <= v <= usize::MAX {
                Some(Some(v as usize))
            } else {
                None
            },
            None => None,
        }
    }
}

/// What `serde_json::from_str::<Option<i64>>(s)` gives: `null`, or an integer in range.
pub open spec fn json_opt_i64(s: Seq<char>) -> Option<Option<i64>> {
    if json_null(s) {
        Some(None)
    } else {
        match json_i64(s) {
            Some(v) => Some(Some(v)),
            None => None,
        }
    }
}

/// What `serde_json::from_str::<Option<u64>>(s)` gives: `null`, or a non-negative
/// integer in range.
pub open spec fn json_opt_u64(s: Seq<char>) -> Option<Option<u64>> {
    if json_null(s) {
        Some(None)
    } else {
        match json_integer(json_token(s)) {
            Some(v) => if 0 <= v {
                Some(Some(v as u64))
            } else {
                None
            },
            None => None,
        }
    }
}

/// `serde_json::from_str::<i64>(s)`: the integer (`json_i64`) or the parse error.
#[verifier::external_body]
fn parse_json_i64(s: &str) -> (r: Result<i64, serde_json::Error>)
    ensures
        r is Ok <==> json_i64(s@) is Some,
        r matches Ok(v) ==> json_i64(s@) == Some(v),
{
    serde_json::from_str::<i64>(s)
}

/// `serde_json::from_str::<Option<usize>>(s)`: the value (`json_opt_usize`) or the
/// parse error.
#[verifier::external_body]
fn parse_json_opt_usize(s: &str) -> (r: Result<Option<usize>, serde_json::Error>)
    ensures
        r is Ok <==> json_opt_usize(s@) is Some,
        r matches Ok(v) ==> json_opt_usize(s@) == Some(v),
{
    serde_json::from_str::<Option<usize>>(s)
}

/// `serde_json::from_str::<Option<i64>>(s)`: the value (`json_opt_i64`) or the
/// parse error.
#[verifier::external_body]
fn parse_json_opt_i64(s: &str) -> (r: Result<Option<i64>, serde_json::Error>)
    ensures
        r is Ok <==> json_opt_i64(s@) is Some,
        r matches Ok(v) ==> json_opt_i64(s@) == Some(v),
{
    serde_json::from_str::<Option<i64>>(s)
}

/// `serde_json::from_str::<Option<u64>>(s)`: the value (`json_opt_u64`) or the
/// parse error.
#[verifier::external_body]
fn parse_json_opt_u64(s: &str) -> (r: Result<Option<u64>, serde_json::Error>)
    ensures
        r is Ok <==> json_opt_u64(s@) is Some,
        r matches Ok(v) ==> json_opt_u64(s@) == Some(v),
{
    serde_json::from_str::<Option<u64>>(s)
}

/// The field `key`, or the error that it is missing.
pub fn get_v(fields: &Vec<(String, String)>, key: &str) -> (r: Result<String, RedisHashMapError>)
    ensures
        match lookup(fields@, key@) {
            Some(t) => r matches Ok(v) && v@ == t,
            None => r matches Err(RedisHashMapError::Missing { key: k }) && k@ == key@,
        },
{
    match field(fields, key) {
        None => Err(RedisHashMapError::Missing { key: String::from_str(key) }),
        Some(v) => Ok(v),
    }
}

/// The JSON integer in field `key`.
pub fn extract_i64(fields: &Vec<(String, String)>, key: &str) -> (r: Result<i64, RedisHashMapError>)
    ensures
        match lookup(fields@, key@) {
            Some(t) => match json_i64(t) {
                Some(v) => r == Ok::<i64, RedisHashMapError>(v),
                None => r matches Err(RedisHashMapError::Deserialize(_)),
            },
            None => r matches Err(RedisHashMapError::Missing { key: k }) && k@ == key@,
        },
{
    match field(fields, key) {
        None => Err(RedisHashMapError::Missing { key: String::from_str(key) }),
        Some(v) => match parse_json_i64(v.as_str()) {
            Ok(n) => Ok(n),
            Err(e) => Err(RedisHashMapError::Deserialize(e)),
        },
    }
}

/// The optional JSON `usize` in field `key`: `None` when the field is absent.
pub fn extract_opt_usize(fields: &Vec<(String, String)>, key: &str) -> (r: Result<
    Option<usize>,
    RedisHashMapError,
>)
    ensures
        match lookup(fields@, key@) {
            Some(t) => match json_opt_usize(t) {
                Some(v) => r == Ok::<Option<usize>, RedisHashMapError>(v),
                None => r matches Err(RedisHashMapError::Deserialize(_)),
            },
            None => r == Ok::<Option<usize>, RedisHashMapError>(None),
        },
{
    match field(fields, key) {
        None => Ok(None),
        Some(v) => match parse_json_opt_usize(v.as_str()) {
            Ok(n) => Ok(n),
            Err(e) => Err(RedisHashMapError::Deserialize(e)),
        },
    }
}

/// The optional JSON `i64` in field `key`: `None` when the field is absent.
pub fn extract_opt_i64(fields: &Vec<(String, String)>, key: &str) -> (r: Result<
    Option<i64>,
    RedisHashMapError,
>)
    ensures
        match lookup(fields@, key@) {
            Some(t) => match json_opt_i64(t) {
                Some(v) => r == Ok::<Option<i64>, RedisHashMapError>(v),
                None => r matches Err(RedisHashMapError::Deserialize(_)),
            },
            None => r == Ok::<Option<i64>, RedisHashMapError>(None),
        },
{
    match field(fields, key) {
        None => Ok(None),
        Some(v) => match parse_json_opt_i64(v.as_str()) {
            Ok(n) => Ok(n),
            Err(e) => Err(RedisHashMapError::Deserialize(e)),
        },
    }
}

/// The timestamp (JSON milliseconds) in field `key`.
pub fn extract_timestamp_ms(fields: &Vec<(String, String)>, key: &str) -> (r: Result<
    Timestamp,
    RedisHashMapError,
>)
    ensures
        match lookup(fields@, key@) {
            Some(t) => match json_i64(t) {
                Some(v) => if chrono_millis_in_range(v) {
                    r matches Ok(ts) && ts@ == v && ts.wf()
                } else {
                    r matches Err(RedisHashMapError::TimeStampOutOfRange { key: k, ts }) && k@
                        == key@ && ts == v
                },
                None => r matches Err(RedisHashMapError::Deserialize(_)),
            },
            None => r matches Err(RedisHashMapError::Missing { key: k }) && k@ == key@,
        },
{
    let ts = match extract_i64(fields, key) {
        Ok(ts) => ts,
        Err(e) => return Err(e),
    };
    match Timestamp::from_millis(ts) {
        Some(dt) => Ok(dt),
        None => Err(RedisHashMapError::TimeStampOutOfRange { key: String::from_str(key), ts }),
    }
}

/// The optional duration (JSON milliseconds) in field `key`.
pub fn extract_duration_ms_opt(fields: &Vec<(String, String)>, key: &str) -> (r: Result<
    Option<Duration>,
    RedisHashMapError,
>)
    ensures
        match lookup(fields@, key@) {
            Some(t) => match json_opt_u64(t) {
                Some(Some(v)) => r == Ok::<Option<Duration>, RedisHashMapError>(
                    Some(Duration { ms: v }),
                ),
                Some(None) => r == Ok::<Option<Duration>, RedisHashMapError>(None),
                None => r matches Err(RedisHashMapError::Deserialize(_)),
            },
            None => r == Ok::<Option<Duration>, RedisHashMapError>(None),
        },
{
    match field(fields, key) {
        None => Ok(None),
        Some(v) => match parse_json_opt_u64(v.as_str()) {
            Ok(Some(ms)) => Ok(Some(Duration::from_millis(ms))),
            Ok(None) => Ok(None),
            Err(e) => Err(RedisHashMapError::Deserialize(e)),
        },
    }
}

/// How reading a flat key/value array ends.
pub enum PairsOutcome {
    /// All pairs, in order.
    Fields(Seq<(Seq<char>, Seq<char>)>),
    /// A key or value is not valid UTF-8.
    BadUtf8,
    /// The array is not made of pairs of bulk strings.
    Unexpected,
}

/// Reading the flat key/value array `items` from pair `k` on.
pub open spec fn pairs_from(items: Seq<Reply>, k: nat) -> PairsOutcome
    decreases items.len() - 2 * k,
{
    if 2 * k >= items.len() {
        PairsOutcome::Fields(Seq::empty())
    } else if 2 * k + 1 >= items.len() {
        PairsOutcome::Unexpected
    } else {
        match (items[(2 * k) as int], items[2 * k + 1 as int]) {
            (Reply::BulkString(a), Reply::BulkString(b)) => if !valid_utf8(a@) || !valid_utf8(b@) {
                PairsOutcome::BadUtf8
            } else {
                match pairs_from(items, k + 1) {
                    PairsOutcome::Fields(rest) => PairsOutcome::Fields(
                        seq![(decode_utf8(a@), decode_utf8(b@))] + rest,
                    ),
                    other => other,
                }
            },
            _ => PairsOutcome::Unexpected,
        }
    }
}

/// The texts of a list of string pairs.
pub open spec fn pair_texts(v: Seq<(String, String)>) -> Seq<(Seq<char>, Seq<char>)> {
    v.map_values(|p: (String, String)| (p.0@, p.1@))
}

/// `acc` followed by what reading the rest gives.
pub open spec fn prepend_pairs(acc: Seq<(Seq<char>, Seq<char>)>, o: PairsOutcome) -> PairsOutcome {
    match o {
        PairsOutcome::Fields(rest) => PairsOutcome::Fields(acc + rest),
        other => other,
    }
}

proof fn lemma_prepend_failure(x: PairsOutcome, acc: Seq<(Seq<char>, Seq<char>)>, y: PairsOutcome)
    requires
        prepend_pairs(Seq::empty(), x) == prepend_pairs(acc, y),
        !(y is Fields),
    ensures
        x == y,
{
    match x {
        PairsOutcome::Fields(f) => {
            assert(prepend_pairs(Seq::empty(), x) is Fields);
        },
        _ => {},
    }
}

proof fn lemma_pairs_step(items: Seq<Reply>, k: nat, acc: Seq<(Seq<char>, Seq<char>)>, p: (Seq<char>, Seq<char>))
    requires
        2 * k + 1 < items.len(),
        items[(2 * k) as int] matches Reply::BulkString(a) && items[2 * k + 1 as int] matches Reply::BulkString(b)
            && valid_utf8(a@) && valid_utf8(b@) && p == (decode_utf8(a@), decode_utf8(b@)),
    ensures
        prepend_pairs(acc, pairs_from(items, k)) == prepend_pairs(acc.push(p), pairs_from(items, k + 1)),
{
    match pairs_from(items, k + 1) {
        PairsOutcome::Fields(rest) => {
            assert(acc + (seq![p] + rest) =~= acc.push(p) + rest);
        },
        _ => {},
    }
}

/// A copy of a byte vector.
pub fn clone_bytes(v: &Vec<u8>) -> (r: Vec<u8>)
    ensures
        r@ == v@,
{
    let r = v.clone();
    assert(r@ =~= v@);
    r
}

/// Read the flat key/value array a script returns for a job hash into its fields.
pub fn job_data_map(v: Reply) -> (r: Result<Vec<(String, String)>, MoveToActiveErr>)
    ensures
        match v {
            Reply::Array(items) => match pairs_from(items@, 0) {
                PairsOutcome::Fields(f) => r matches Ok(fields) && pair_texts(fields@) == f,
                PairsOutcome::BadUtf8 => r matches Err(MoveToActiveErr::RedisStringInvalid(_)),
                PairsOutcome::Unexpected => r matches Err(MoveToActiveErr::UnexpectedRedisValue { value }) && value == v,
            },
            _ => r matches Err(MoveToActiveErr::UnexpectedRedisValue { value }) && value == v,
        },
{
    match v {
        Reply::Array(items) => {
            let mut res: Vec<(String, String)> = Vec::new();
            let mut i: usize = 0;
            let mut unexpected = false;
            let mut bad_utf8: Option<std::string::FromUtf8Error> = None;
            while i < items.len()
                invariant_except_break
                    !unexpected,
                    bad_utf8 is None,
                    prepend_pairs(Seq::empty(), pairs_from(items@, 0)) == prepend_pairs(
                        pair_texts(res@),
                        pairs_from(items@, (i / 2) as nat),
                    ),
                invariant
                    i <= items@.len(),
                    i % 2 == 0,
                ensures
                    unexpected ==> pairs_from(items@, 0) == PairsOutcome::Unexpected,
                    bad_utf8 is Some ==> !unexpected && pairs_from(items@, 0) == PairsOutcome::BadUtf8,
                    !unexpected && bad_utf8 is None ==> prepend_pairs(Seq::empty(), pairs_from(items@, 0)) == prepend_pairs(
                        pair_texts(res@),
                        pairs_from(items@, (i / 2) as nat),
                    ) && i >= items@.len(),
                decreases items@.len() - i,
            {
                if i + 1 >= items.len() {
                    assert(pairs_from(items@, (i / 2) as nat) == PairsOutcome::Unexpected);
                    proof {
                        lemma_prepend_failure(pairs_from(items@, 0), pair_texts(res@), PairsOutcome::Unexpected);
                    }
                    unexpected = true;
                    break;
                }
                let (a, b) = match (&items[i], &items[i + 1]) {
                    (Reply::BulkString(a), Reply::BulkString(b)) => (clone_bytes(a), clone_bytes(b)),
                    _ => {
                        assert(pairs_from(items@, (i / 2) as nat) == PairsOutcome::Unexpected);
                        proof {
                            lemma_prepend_failure(pairs_from(items@, 0), pair_texts(res@), PairsOutcome::Unexpected);
                        }
                        unexpected = true;
                        break;
                    },
                };
                let ghost ga = a@;
                let ghost gb = b@;
                let ka = match string_from_utf8(a) {
                    Ok(s) => s,
                    Err(e) => {
                        assert(pairs_from(items@, (i / 2) as nat) == PairsOutcome::BadUtf8);
                        proof {
                            lemma_prepend_failure(pairs_from(items@, 0), pair_texts(res@), PairsOutcome::BadUtf8);
                        }
                        bad_utf8 = Some(e);
                        break;
                    },
                };
                let kb = match string_from_utf8(b) {
                    Ok(s) => s,
                    Err(e) => {
                        assert(pairs_from(items@, (i / 2) as nat) == PairsOutcome::BadUtf8);
                        proof {
                            lemma_prepend_failure(pairs_from(items@, 0), pair_texts(res@), PairsOutcome::BadUtf8);
                        }
                        bad_utf8 = Some(e);
                        break;
                    },
                };
                proof {
                    lemma_pairs_step(items@, (i / 2) as nat, pair_texts(res@), (ka@, kb@));
                }
                let ghost prev = res@;
                res.push((ka, kb));
                assert(pair_texts(res@) =~= pair_texts(prev).push((ka@, kb@)));
                i = i + 2;
            }
            match bad_utf8 {
                Some(e) => {
                    return Err(MoveToActiveErr::RedisStringInvalid(e));
                },
                None => {},
            }
            if unexpected {
                return Err(MoveToActiveErr::UnexpectedRedisValue { value: Reply::Array(items) });
            }
            Ok(res)
        },
        other => Err(MoveToActiveErr::UnexpectedRedisValue { value: other }),
    }
}

} // verus!
