//! The per-request flow: derive the key, consult the cache, forward on a
//! miss, and store what the provider answered.
//!
//! Each step is a function from what the previous outside operation returned
//! to what the proxy does next; the caller performs the operations.
use vstd::prelude::*;
use crate::chain::Chain;
use crate::key::{endpoint, upstream_url};
use crate::request::{ProxyError, request_key};

verus! {

/// The name under which the provider credential is provisioned.
pub const CREDENTIAL_BINDING: &'static str = "ALCHEMY_API_KEY";

/// An HTTP response as the proxy returns it and as the cache keeps it.
#[derive(Clone, Debug, PartialEq, Eq)]
pub struct Reply {
    pub status: u16,
    pub content_type: Option<String>,
    pub body: String,
}

pub ghost struct ReplyView {
    pub status: u16,
    pub content_type: Option<Seq<char>>,
    pub body: Seq<char>,
}

impl View for Reply {
    type V = ReplyView;

    open spec fn view(&self) -> ReplyView {
        ReplyView {
            status: self.status,
            content_type: match self.content_type {
                Some(t) => Some(t@),
                None => None,
            },
            body: self.body@,
        }
    }
}

/// The response that carries a provider answer.
pub open spec fn json_reply(body: Seq<char>) -> ReplyView {
    ReplyView { status: 200, content_type: Some("application/json"@), body }
}

/// The response that reports a failed provider call.
pub open spec fn failure_reply(description: Seq<char>) -> ReplyView {
    ReplyView { status: 500, content_type: None, body: description }
}

/// The outbound request to the provider.
#[derive(Clone, Debug, PartialEq, Eq)]
pub struct UpstreamRequest {
    pub url: String,
    pub headers: Vec<(String, String)>,
    pub body: String,
}

/// The two headers of every outbound request.
pub open spec fn upstream_headers(h: Seq<(String, String)>) -> bool {
    &&& h.len() == 2
    &&& h[0].0@ == "Content-Type"@
    &&& h[0].1@ == "application/json"@
    &&& h[1].0@ == "User-Agent"@
    &&& h[1].1@ == "c-atts/0.0.1"@
}

/// The outbound request for `body` on chain `c` with `api_key`.
pub open spec fn upstream_for(u: UpstreamRequest, c: Chain, body: Seq<char>, api_key: Seq<char>) -> bool {
    &&& u.url@ == endpoint(c, api_key)
    &&& upstream_headers(u.headers@)
    &&& u.body@ == body
}

/// What a cache lookup yields for the flow: a lookup error is a miss.
pub open spec fn hit_of<T>(looked: Result<Option<T>, Seq<char>>) -> Option<T> {
    match looked {
        Ok(Some(r)) => Some(r),
        _ => None,
    }
}

/// Whether a provider outcome is kept in the cache, and the response for it.
pub open spec fn forward_step(outcome: Result<Seq<char>, Seq<char>>) -> (bool, ReplyView) {
    match outcome {
        Ok(b) => (true, json_reply(b)),
        Err(e) => (false, failure_reply(e)),
    }
}

/// The texts that a provider outcome carries.
pub open spec fn text_result(r: Result<String, String>) -> Result<Seq<char>, Seq<char>> {
    match r {
        Ok(s) => Ok(s@),
        Err(e) => Err(e@),
    }
}

/// The answer of a cache lookup, where the store reported an error as `Err`.
pub fn cached_reply(looked: Result<Option<Reply>, String>) -> (r: Option<Reply>)
    ensures
        r == hit_of(match looked {
            Ok(x) => Ok::<Option<Reply>, Seq<char>>(x),
            Err(e) => Err(e@),
        }),
{
    match looked {
        Ok(Some(reply)) => Some(reply),
        _ => None,
    }
}

/// Builds the outbound request once the credential has been resolved.
pub fn upstream_request(
    chain: Chain,
    body: &str,
    credential: Option<String>,
) -> (r: Result<UpstreamRequest, ProxyError>)
    ensures
        match credential {
            None => r matches Err(ProxyError::MissingCredential),
            Some(k) => r matches Ok(u) && upstream_for(u, chain, body@, k@),
        },
{
    match credential {
        None => Err(ProxyError::MissingCredential),
        Some(key) => {
            let url = upstream_url(chain, key.as_str());
            let mut headers: Vec<(String, String)> = Vec::new();
            headers.push((String::from_str("Content-Type"), String::from_str("application/json")));
            headers.push((String::from_str("User-Agent"), String::from_str("c-atts/0.0.1")));
            Ok(UpstreamRequest { url, headers, body: String::from_str(body) })
        },
    }
}

/// What to do with the provider's outcome.
#[derive(Clone, Debug, PartialEq, Eq)]
pub enum Forwarded {
    /// Keep the response in the cache, then return it.
    Store(Reply),
    /// Return the response without caching it.
    Respond(Reply),
}

/// Turns the provider's outcome (its body, or the transport failure's
/// description) into the response and whether it is cached.
pub fn on_upstream(outcome: Result<String, String>) -> (r: Forwarded)
    ensures
        match r {
            Forwarded::Store(x) => forward_step(text_result(outcome)) == (true, x@),
            Forwarded::Respond(x) => forward_step(text_result(outcome)) == (false, x@),
        },
{
    match outcome {
        Ok(body) => Forwarded::Store(
            Reply { status: 200, content_type: Some(String::from_str("application/json")), body },
        ),
        Err(description) => Forwarded::Respond(
            Reply { status: 500, content_type: None, body: description },
        ),
    }
}

/// Finishes a request once the cache store has answered the put.
pub fn on_store(stored: Result<(), String>, reply: Reply) -> (r: Result<Reply, ProxyError>)
    ensures
        match stored {
            Ok(()) => r == Ok::<Reply, ProxyError>(reply),
            Err(e) => r matches Err(ProxyError::CacheStore(d)) && d@ == e@,
        },
{
    match stored {
        Ok(()) => Ok(reply),
        Err(e) => Err(ProxyError::CacheStore(e)),
    }
}

/// The whole of one request, against a cache that keeps what it is given.
pub ghost struct Run {
    pub result: Result<ReplyView, ProxyError>,
    pub cache: Map<Seq<char>, ReplyView>,
    pub forwarded: bool,
}

/// One request with body `body` on chain `c`, given the cache's contents,
/// the credential the secret store resolves, and what the provider would
/// answer (its body, or the transport failure's description).
pub open spec fn run(
    cache: Map<Seq<char>, ReplyView>,
    c: Chain,
    body: Seq<char>,
    credential: Option<Seq<char>>,
    upstream: Result<Seq<char>, Seq<char>>,
) -> Run {
    match request_key(c, body) {
        None => Run { result: Err(ProxyError::Parse), cache, forwarded: false },
        Some(k) => {
            let looked = if cache.contains_key(k) {
                Ok::<Option<ReplyView>, Seq<char>>(Some(cache[k]))
            } else {
                Ok(None)
            };
            match hit_of(looked) {
                Some(r) => Run { result: Ok(r), cache, forwarded: false },
                None => match credential {
                    None => Run { result: Err(ProxyError::MissingCredential), cache, forwarded: false },
                    Some(_) => {
                        let (keep, r) = forward_step(upstream);
                        Run {
                            result: Ok(r),
                            cache: if keep { cache.insert(k, r) } else { cache },
                            forwarded: true,
                        }
                    },
                },
            }
        },
    }
}

} // verus!
