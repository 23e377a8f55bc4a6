use std::collections::HashMap;

use rpc_cache_proxy::chain::Chain;
use rpc_cache_proxy::handler::{
    cached_reply, on_store, on_upstream, upstream_request, Forwarded, Reply, CREDENTIAL_BINDING,
};
use rpc_cache_proxy::key::{cache_key, upstream_url};
use rpc_cache_proxy::request::{derive_cache_key, parse_request_id, ProxyError};

const RPC_42: &str = r#"{"jsonrpc":"2.0","id":42,"method":"eth_blockNumber","params":[]}"#;

/// What one request did, driven through the library's steps against an
/// in-memory cache and a fake provider.
struct Outcome {
    result: Result<Reply, ProxyError>,
    upstream_calls: usize,
}

fn drive(
    cache: &mut HashMap<String, Reply>,
    chain: Chain,
    body: &str,
    credential: Option<&str>,
    provider: &dyn Fn(&str) -> Result<String, String>,
) -> Outcome {
    let mut upstream_calls = 0;
    let key = match derive_cache_key(chain, body) {
        Ok(k) => k,
        Err(e) => return Outcome { result: Err(e), upstream_calls },
    };
    if let Some(hit) = cached_reply(Ok(cache.get(&key).cloned())) {
        return Outcome { result: Ok(hit), upstream_calls };
    }
    let call = match upstream_request(chain, body, credential.map(|c| c.to_string())) {
        Ok(call) => call,
        Err(e) => return Outcome { result: Err(e), upstream_calls },
    };
    upstream_calls += 1;
    let result = match on_upstream(provider(&call.url)) {
        Forwarded::Store(reply) => {
            cache.insert(key, reply.clone());
            on_store(Ok(()), reply)
        }
        Forwarded::Respond(reply) => Ok(reply),
    };
    Outcome { result, upstream_calls }
}

fn answers_one(_url: &str) -> Result<String, String> {
    Ok(r#"{"result":"0x1"}"#.to_string())
}

fn never_called(_url: &str) -> Result<String, String> {
    panic!("the provider must not be called")
}

#[test]
fn subdomains_of_chains() {
    assert_eq!(Chain::Sepolia.api_subdomain(), "eth-sepolia");
    assert_eq!(Chain::Optimism.api_subdomain(), "opt-mainnet");
}

#[test]
fn routes_select_chains() {
    assert_eq!(Chain::from_route("/sepolia"), Some(Chain::Sepolia));
    assert_eq!(Chain::from_route("/optimism"), Some(Chain::Optimism));
    assert_eq!(Chain::from_route("/mainnet"), None);
    assert_eq!(Chain::from_route(""), None);
    assert_eq!(Chain::Sepolia.route(), "/sepolia");
    assert_eq!(Chain::Optimism.route(), "/optimism");
}

#[test]
fn cache_key_embeds_subdomain_and_id() {
    assert_eq!(cache_key(Chain::Sepolia, 42), "https://eth-sepolia.g.alchemy.com/v2/42");
    assert_eq!(cache_key(Chain::Optimism, 0), "https://opt-mainnet.g.alchemy.com/v2/0");
    assert_eq!(cache_key(Chain::Optimism, -7), "https://opt-mainnet.g.alchemy.com/v2/-7");
    assert_eq!(
        cache_key(Chain::Sepolia, i32::MIN),
        "https://eth-sepolia.g.alchemy.com/v2/-2147483648"
    );
    assert_eq!(
        cache_key(Chain::Sepolia, i32::MAX),
        "https://eth-sepolia.g.alchemy.com/v2/2147483647"
    );
}

#[test]
fn cache_key_is_deterministic() {
    assert_eq!(cache_key(Chain::Sepolia, 1234), cache_key(Chain::Sepolia, 1234));
    assert_eq!(
        derive_cache_key(Chain::Optimism, RPC_42),
        derive_cache_key(Chain::Optimism, RPC_42)
    );
}

#[test]
fn chains_do_not_collide() {
    assert_ne!(cache_key(Chain::Sepolia, 42), cache_key(Chain::Optimism, 42));
    assert_ne!(
        derive_cache_key(Chain::Sepolia, RPC_42),
        derive_cache_key(Chain::Optimism, RPC_42)
    );
}

#[test]
fn upstream_url_uses_credential() {
    assert_eq!(
        upstream_url(Chain::Optimism, "SECRET-REDACTED"),
        "https://opt-mainnet.g.alchemy.com/v2/SECRET-REDACTED"
    );
}

#[test]
fn parses_request_id() {
    assert_eq!(parse_request_id(RPC_42), Ok(42));
    assert_eq!(parse_request_id(r#"{"id":-3}"#), Ok(-3));
    assert_eq!(parse_request_id(r#"{"id":2147483647}"#), Ok(i32::MAX));
}

#[test]
fn rejects_bodies_without_integer_id() {
    assert_eq!(parse_request_id("not json"), Err(ProxyError::Parse));
    assert_eq!(parse_request_id(r#"{"jsonrpc":"2.0"}"#), Err(ProxyError::Parse));
    assert_eq!(parse_request_id(r#"{"id":"42"}"#), Err(ProxyError::Parse));
    assert_eq!(parse_request_id(r#"{"id":4.5}"#), Err(ProxyError::Parse));
    assert_eq!(parse_request_id(r#"{"id":2147483648}"#), Err(ProxyError::Parse));
    assert_eq!(derive_cache_key(Chain::Sepolia, ""), Err(ProxyError::Parse));
}

#[test]
fn derives_key_from_body() {
    assert_eq!(
        derive_cache_key(Chain::Sepolia, RPC_42),
        Ok("https://eth-sepolia.g.alchemy.com/v2/42".to_string())
    );
}

#[test]
fn lookup_errors_are_misses() {
    let r = Reply { status: 200, content_type: None, body: "x".to_string() };
    assert_eq!(cached_reply(Ok(Some(r.clone()))), Some(r));
    assert_eq!(cached_reply(Ok(None)), None);
    assert_eq!(cached_reply(Err("store unavailable".to_string())), None);
}

#[test]
fn builds_upstream_request() {
    let call = upstream_request(Chain::Sepolia, RPC_42, Some("k3y".to_string())).unwrap();
    assert_eq!(call.url, "https://eth-sepolia.g.alchemy.com/v2/k3y");
    assert_eq!(call.body, RPC_42);
    assert_eq!(
        call.headers,
        vec![
            ("Content-Type".to_string(), "application/json".to_string()),
            ("User-Agent".to_string(), "c-atts/0.0.1".to_string()),
        ]
    );
    assert_eq!(
        upstream_request(Chain::Sepolia, RPC_42, None),
        Err(ProxyError::MissingCredential)
    );
}

#[test]
fn upstream_outcomes() {
    assert_eq!(
        on_upstream(Ok("{}".to_string())),
        Forwarded::Store(Reply {
            status: 200,
            content_type: Some("application/json".to_string()),
            body: "{}".to_string(),
        })
    );
    assert_eq!(
        on_upstream(Err("connection reset".to_string())),
        Forwarded::Respond(Reply {
            status: 500,
            content_type: None,
            body: "connection reset".to_string(),
        })
    );
}

#[test]
fn store_failure_fails_request() {
    let r = Reply { status: 200, content_type: None, body: "b".to_string() };
    assert_eq!(on_store(Ok(()), r.clone()), Ok(r.clone()));
    assert_eq!(
        on_store(Err("quota".to_string()), r),
        Err(ProxyError::CacheStore("quota".to_string()))
    );
}

#[test]
fn error_messages() {
    assert_eq!(ProxyError::MissingCredential.message(), "ALCHEMY_API_KEY secret is missing");
    assert_eq!(ProxyError::CacheStore("quota".to_string()).message(), "quota");
    assert!(!ProxyError::Parse.message().is_empty());
    assert_eq!(CREDENTIAL_BINDING, "ALCHEMY_API_KEY");
}

#[test]
fn cache_hit_skips_provider() {
    let mut cache = HashMap::new();
    let cached = Reply {
        status: 200,
        content_type: Some("application/json".to_string()),
        body: r#"{"result":"0xcafe"}"#.to_string(),
    };
    cache.insert(cache_key(Chain::Sepolia, 42), cached.clone());
    let out = drive(&mut cache, Chain::Sepolia, RPC_42, Some("k"), &never_called);
    assert_eq!(out.result, Ok(cached));
    assert_eq!(out.upstream_calls, 0);
}

#[test]
fn miss_forwards_and_caches() {
    let mut cache = HashMap::new();
    let out = drive(&mut cache, Chain::Optimism, RPC_42, Some("k"), &answers_one);
    let reply = out.result.unwrap();
    assert_eq!(reply.body, r#"{"result":"0x1"}"#);
    assert_eq!(reply.content_type.as_deref(), Some("application/json"));
    assert_eq!(out.upstream_calls, 1);
    assert_eq!(cache.get("https://opt-mainnet.g.alchemy.com/v2/42"), Some(&reply));
}

#[test]
fn missing_credential_never_forwards() {
    let mut cache = HashMap::new();
    let out = drive(&mut cache, Chain::Sepolia, RPC_42, None, &never_called);
    assert_eq!(out.result, Err(ProxyError::MissingCredential));
    assert_eq!(out.upstream_calls, 0);
    assert!(cache.is_empty());
}

#[test]
fn transport_failure_is_500_and_not_cached() {
    let mut cache = HashMap::new();
    let failing = |_url: &str| -> Result<String, String> { Err("dns lookup failed".to_string()) };
    let out = drive(&mut cache, Chain::Sepolia, RPC_42, Some("k"), &failing);
    let reply = out.result.unwrap();
    assert_eq!(reply.status, 500);
    assert!(reply.body.contains("dns lookup failed"));
    assert!(cache.is_empty());
}

#[test]
fn repeat_request_is_cache_hit() {
    let mut cache = HashMap::new();
    let first = drive(&mut cache, Chain::Sepolia, RPC_42, Some("k"), &answers_one);
    assert_eq!(first.upstream_calls, 1);
    let second = drive(&mut cache, Chain::Sepolia, RPC_42, Some("k"), &never_called);
    assert_eq!(second.upstream_calls, 0);
    assert_eq!(second.result, first.result);
}

#[test]
fn malformed_body_never_forwards() {
    let mut cache = HashMap::new();
    let out = drive(&mut cache, Chain::Sepolia, "{oops", Some("k"), &never_called);
    assert_eq!(out.result, Err(ProxyError::Parse));
    assert_eq!(out.upstream_calls, 0);
}

#[test]
fn cache_key_distinguishes_ids() {
    assert_ne!(cache_key(Chain::Sepolia, 1), cache_key(Chain::Sepolia, -1));
    assert_ne!(cache_key(Chain::Sepolia, 10), cache_key(Chain::Sepolia, 100));
    assert_eq!(
        derive_cache_key(Chain::Sepolia, r#"{"id":7,"method":"a"}"#),
        derive_cache_key(Chain::Sepolia, r#"{"method":"b","id":7}"#)
    );
}
