//! What Redis answers: the values a Lua script returns, as the queue reads them.
use vstd::prelude::*;
use vstd::utf8::{decode_utf8, valid_utf8};

verus! {

/// `std::string::FromUtf8Error`: bytes that are not valid UTF-8.
#[verifier::external_type_specification]
#[verifier::external_body]
pub struct ExFromUtf8Error(std::string::FromUtf8Error);

/// `redis::RedisError`.
#[verifier::external_type_specification]
#[verifier::external_body]
pub struct ExRedisError(redis::RedisError);

/// `redis::Value`: a value as Redis returned it.
#[verifier::external_type_specification]
#[verifier::external_body]
pub struct ExRedisValue(redis::Value);

/// A value returned by Redis, as far as the queue reads it. Every other kind of
/// value (maps, sets, doubles, ...) is `Other`, kept as Redis returned it.
#[derive(Debug)]
pub enum Reply {
    /// A nil response.
    Nil,
    /// An integer response.
    Int(i64),
    /// Binary-safe string data.
    BulkString(Vec<u8>),
    /// An array of values.
    Array(Vec<Reply>),
    /// A simple string response.
    SimpleString(String),
    /// The status response `OK`.
    Okay,
    /// Any other value, as Redis returned it.
    Other(redis::Value),
}

/// Text of `bytes` as `String::from_utf8_lossy` gives it: invalid sequences are
/// replaced by U+FFFD.
pub uninterp spec fn utf8_lossy(bytes: Seq<u8>) -> Seq<char>;

/// `String::from_utf8_lossy(bytes).into()`: the text of `bytes`, with each invalid
/// UTF-8 sequence replaced by U+FFFD (named `utf8_lossy` here); valid UTF-8 comes
/// out decoded as it is.
#[verifier::external_body]
pub(crate) fn string_from_utf8_lossy(bytes: &Vec<u8>) -> (r: String)
    ensures
        r@ == utf8_lossy(bytes@),
        valid_utf8(bytes@) ==> r@ == decode_utf8(bytes@),
{
    String::from_utf8_lossy(bytes).into()
}

/// `String::from_utf8(bytes)`: the decoded text when `bytes` is valid UTF-8,
/// an error otherwise.
#[verifier::external_body]
pub(crate) fn string_from_utf8(bytes: Vec<u8>) -> (r: Result<String, std::string::FromUtf8Error>)
    ensures
        r is Ok <==> valid_utf8(bytes@),
        r matches Ok(s) ==> s@ == decode_utf8(bytes@),
{
    String::from_utf8(bytes)
}

/// The text a reply carries, when it is a string reply holding valid UTF-8.
pub open spec fn reply_text(r: Reply) -> Option<Seq<char>> {
    match r {
        Reply::BulkString(b) => if valid_utf8(b@) {
            Some(decode_utf8(b@))
        } else {
            None
        },
        Reply::SimpleString(s) => Some(s@),
        _ => None,
    }
}

/// The text of a string reply holding valid UTF-8, `None` for anything else.
pub fn extract_string(value: &Reply) -> (r: Option<String>)
    ensures
        match (r, reply_text(*value)) {
            (Some(s), Some(t)) => s@ == t,
            (None, None) => true,
            _ => false,
        },
{
    match value {
        Reply::BulkString(bytes) => match string_from_utf8(bytes.clone()) {
            Ok(s) => Some(s),
            Err(_) => None,
        },
        Reply::SimpleString(s) => Some(s.clone()),
        _ => None,
    }
}

/// The `redis::Value` a reply was read from, variant for variant.
#[verifier::external_body]
fn redis_value_of(r: &Reply) -> redis::Value {
    match r {
        Reply::Nil => redis::Value::Nil,
        Reply::Int(n) => redis::Value::Int(*n),
        Reply::BulkString(b) => redis::Value::BulkString(b.clone()),
        Reply::Array(items) => redis::Value::Array(items.iter().map(redis_value_of).collect()),
        Reply::SimpleString(s) => redis::Value::SimpleString(s.clone()),
        Reply::Okay => redis::Value::Okay,
        Reply::Other(v) => v.clone(),
    }
}

/// `redis::RedisError::from((ErrorKind::Server(ServerErrorKind::ResponseError), desc,
/// format!("Response was {v:?}")))`: a response error naming the value Redis gave.
/// Nothing is stated of the error.
#[verifier::external_body]
fn response_error(desc: &'static str, v: &redis::Value) -> redis::RedisError {
    redis::RedisError::from((
        redis::ErrorKind::Server(redis::ServerErrorKind::ResponseError),
        desc,
        format!("Response was {:?}", v),
    ))
}

/// The error for a reply a script should not have given: a response error whose
/// detail names the Redis value of the reply.
pub(crate) fn unexpected_response(desc: &'static str, value: &Reply) -> redis::RedisError {
    let v = redis_value_of(value);
    response_error(desc, &v)
}

} // verus!
