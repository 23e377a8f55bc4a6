//! Reading the request identifier out of an inbound JSON-RPC body.
use vstd::prelude::*;
use crate::chain::Chain;
use crate::key::{cache_key, key_of};

verus! {

/// The integer under the key `"id"` of the JSON object that `body` holds,
/// as serde_json reads it; `None` where the text is not JSON, not an object,
/// or has no integer `id` that fits in an `i64`.
pub uninterp spec fn json_id_of(body: Seq<char>) -> Option<int>;

/// Relies on `serde_json::from_str` (into a `serde_json::Value`), then
/// `Value::get("id")` and `Value::as_i64`: the outcome is a function of the
/// text alone.
#[verifier::external_body]
fn json_request_id(body: &str) -> (r: Option<i64>)
    ensures
        match r {
            Some(v) => json_id_of(body@) == Some(v as int),
            None => json_id_of(body@) is None,
        },
{
    match serde_json::from_str::<serde_json::Value>(body) {
        Ok(v) => v.get("id").and_then(serde_json::Value::as_i64),
        Err(_) => None,
    }
}

/// Errors that end a request without a response from the proxy's own flow.
#[derive(Clone, Debug, PartialEq, Eq)]
pub enum ProxyError {
    /// The body is not a JSON object with an integer `id` that fits in an `i32`.
    Parse,
    /// The provider credential could not be resolved.
    MissingCredential,
    /// The cache store refused to keep a fresh response; the text describes why.
    CacheStore(String),
}

/// The text that reports an error to the caller.
pub open spec fn message_of(e: ProxyError) -> Seq<char> {
    match e {
        ProxyError::Parse => "request body is not JSON-RPC with an integer id"@,
        ProxyError::MissingCredential => "ALCHEMY_API_KEY secret is missing"@,
        ProxyError::CacheStore(d) => d@,
    }
}

impl ProxyError {
    /// The text that reports this error to the caller.
    pub fn message(&self) -> (r: String)
        ensures
            r@ == message_of(*self),
    {
        match self {
            ProxyError::Parse => String::from_str("request body is not JSON-RPC with an integer id"),
            ProxyError::MissingCredential => String::from_str("ALCHEMY_API_KEY secret is missing"),
            ProxyError::CacheStore(d) => d.clone(),
        }
    }
}

/// The request identifier that a body carries: an `i32` integer `id` field.
pub open spec fn request_id_of(body: Seq<char>) -> Option<int> {
    match json_id_of(body) {
        Some(id) => if i32::MIN <= id <= i32::MAX { Some(id) } else { None },
        None => None,
    }
}

/// The cache key that a request body on chain `c` derives, if it has one.
pub open spec fn request_key(c: Chain, body: Seq<char>) -> Option<Seq<char>> {
    match request_id_of(body) {
        Some(id) => Some(key_of(c, id)),
        None => None,
    }
}

/// Reads the request identifier of a JSON-RPC body.
pub fn parse_request_id(body: &str) -> (r: Result<i32, ProxyError>)
    ensures
        match request_id_of(body@) {
            Some(id) => r == Ok::<i32, ProxyError>(id as i32),
            None => r matches Err(ProxyError::Parse),
        },
{
    match json_request_id(body) {
        Some(v) => {
            if i32::MIN as i64 <= v && v <= i32::MAX as i64 {
                Ok(v as i32)
            } else {
                Err(ProxyError::Parse)
            }
        },
        None => Err(ProxyError::Parse),
    }
}

/// Derives the cache key of an inbound request body on `chain`.
pub fn derive_cache_key(chain: Chain, body: &str) -> (r: Result<String, ProxyError>)
    ensures
        match request_key(chain, body@) {
            Some(k) => r matches Ok(s) && s@ == k,
            None => r matches Err(ProxyError::Parse),
        },
{
    let id = parse_request_id(body)?;
    Ok(cache_key(chain, id))
}

} // verus!
