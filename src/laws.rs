//! What holds of cache keys and of whole requests.
use vstd::prelude::*;
use crate::chain::{Chain, subdomain};
use crate::key::{decimal, digit_char, digits, key_of};
use crate::request::{ProxyError, request_id_of, request_key};
use crate::handler::{ReplyView, json_reply, run};

verus! {

/// The cache key of a request depends on its chain and identifier alone:
/// deriving it twice from one body, or from two bodies that carry the same
/// identifier, gives the same key, the one built from that chain and
/// identifier.
pub proof fn lemma_cache_key_deterministic(c: Chain, b1: Seq<char>, b2: Seq<char>)
    requires
        request_id_of(b1) is Some,
        request_id_of(b1) == request_id_of(b2),
    ensures
        request_key(c, b1) == request_key(c, b2),
        request_key(c, b1) == Some(key_of(c, request_id_of(b1)->Some_0)),
{
}

/// Two distinct chains never share a cache key, whatever the identifiers;
/// in particular not for the same identifier.
pub proof fn lemma_chains_do_not_collide(c1: Chain, id1: int, c2: Chain, id2: int)
    requires
        c1 != c2,
    ensures
        key_of(c1, id1) != key_of(c2, id2),
{
    reveal_strlit("https://");
    reveal_strlit("eth-sepolia");
    reveal_strlit("opt-mainnet");
    assert(key_of(c1, id1)[8] == subdomain(c1)[0]);
    assert(key_of(c2, id2)[8] == subdomain(c2)[0]);
}

proof fn lemma_digits_shape(n: nat)
    ensures
        digits(n).len() >= 1,
        n < 10 ==> digits(n).len() == 1,
        n >= 10 ==> digits(n).len() >= 2,
        forall|k: int| 0 <= k < digits(n).len() ==> digits(n)[k] != '-',
    decreases n,
{
    if n >= 10 {
        lemma_digits_shape(n / 10);
    }
}

proof fn lemma_digit_char_injective(a: nat, b: nat)
    requires
        a < 10,
        b < 10,
        digit_char(a) == digit_char(b),
    ensures
        a == b,
{
}

proof fn lemma_digits_injective(n: nat, m: nat)
    requires
        digits(n) == digits(m),
    ensures
        n == m,
    decreases n,
{
    lemma_digits_shape(n);
    lemma_digits_shape(m);
    if n >= 10 && m >= 10 {
        let dn = digits(n);
        assert(dn.drop_last() == digits(n / 10));
        assert(digits(m).drop_last() == digits(m / 10));
        lemma_digits_injective(n / 10, m / 10);
        assert(dn[dn.len() - 1] == digit_char(n % 10));
        assert(digits(m)[digits(m).len() - 1] == digit_char(m % 10));
        lemma_digit_char_injective(n % 10, m % 10);
    } else if n < 10 && m < 10 {
        assert(digits(n)[0] == digit_char(n));
        assert(digits(m)[0] == digit_char(m));
        lemma_digit_char_injective(n, m);
    }
}

proof fn lemma_decimal_injective(i: int, j: int)
    requires
        decimal(i) == decimal(j),
    ensures
        i == j,
{
    if i < 0 {
        lemma_digits_shape((-i) as nat);
    }
    if j < 0 {
        lemma_digits_shape((-j) as nat);
    }
    if i >= 0 {
        lemma_digits_shape(i as nat);
    }
    if j >= 0 {
        lemma_digits_shape(j as nat);
    }
    if i < 0 && j < 0 {
        assert(decimal(i).subrange(1, decimal(i).len() as int) == digits((-i) as nat));
        assert(decimal(j).subrange(1, decimal(j).len() as int) == digits((-j) as nat));
        lemma_digits_injective((-i) as nat, (-j) as nat);
    } else if i >= 0 && j >= 0 {
        lemma_digits_injective(i as nat, j as nat);
    } else if i < 0 {
        assert(decimal(i)[0] == '-');
        assert(decimal(j)[0] == digits(j as nat)[0]);
    } else {
        assert(decimal(j)[0] == '-');
        assert(decimal(i)[0] == digits(i as nat)[0]);
    }
}

/// A cache key names exactly one chain and one request identifier: two keys
/// are equal if and only if they were built from the same pair.
pub proof fn lemma_cache_key_unique(c1: Chain, id1: int, c2: Chain, id2: int)
    ensures
        key_of(c1, id1) == key_of(c2, id2) <==> (c1 == c2 && id1 == id2),
{
    if key_of(c1, id1) == key_of(c2, id2) {
        if c1 != c2 {
            lemma_chains_do_not_collide(c1, id1, c2, id2);
        } else {
            reveal_strlit("https://");
            reveal_strlit("eth-sepolia");
            reveal_strlit("opt-mainnet");
            reveal_strlit(".g.alchemy.com/v2/");
            let p = "https://"@ + subdomain(c1) + ".g.alchemy.com/v2/"@;
            assert(key_of(c1, id1) == p + decimal(id1));
            assert(key_of(c2, id2) == p + decimal(id2));
            assert((p + decimal(id1)).subrange(p.len() as int, key_of(c1, id1).len() as int)
                == decimal(id1));
            assert((p + decimal(id2)).subrange(p.len() as int, key_of(c2, id2).len() as int)
                == decimal(id2));
            lemma_decimal_injective(id1, id2);
        }
    }
}

/// A request whose key the cache holds is answered from the cache, with no
/// provider call and the cache left as it was.
pub proof fn lemma_cache_hit_skips_upstream(
    cache: Map<Seq<char>, ReplyView>,
    c: Chain,
    body: Seq<char>,
    credential: Option<Seq<char>>,
    upstream: Result<Seq<char>, Seq<char>>,
)
    requires
        request_key(c, body) matches Some(k) && cache.contains_key(k),
    ensures
        run(cache, c, body, credential, upstream).result == Ok::<ReplyView, ProxyError>(
            cache[request_key(c, body)->Some_0],
        ),
        !run(cache, c, body, credential, upstream).forwarded,
        run(cache, c, body, credential, upstream).cache == cache,
{
}

/// On a miss, a provider answer is returned as JSON with its body unchanged
/// and kept in the cache under the request's key.
pub proof fn lemma_miss_forwards_and_caches(
    cache: Map<Seq<char>, ReplyView>,
    c: Chain,
    body: Seq<char>,
    api_key: Seq<char>,
    answer: Seq<char>,
)
    requires
        request_key(c, body) matches Some(k) && !cache.contains_key(k),
    ensures
        ({
            let r = run(cache, c, body, Some(api_key), Ok(answer));
            let k = request_key(c, body)->Some_0;
            &&& r.forwarded
            &&& r.result == Ok::<ReplyView, ProxyError>(json_reply(answer))
            &&& json_reply(answer).body == answer
            &&& json_reply(answer).content_type == Some("application/json"@)
            &&& r.cache.contains_key(k)
            &&& r.cache == cache.insert(k, json_reply(answer))
        }),
{
}

/// On a miss without a credential the request fails as misconfigured and
/// the provider is never called.
pub proof fn lemma_missing_credential_never_forwards(
    cache: Map<Seq<char>, ReplyView>,
    c: Chain,
    body: Seq<char>,
    upstream: Result<Seq<char>, Seq<char>>,
)
    requires
        request_key(c, body) matches Some(k) && !cache.contains_key(k),
    ensures
        run(cache, c, body, None, upstream).result == Err::<ReplyView, ProxyError>(
            ProxyError::MissingCredential,
        ),
        !run(cache, c, body, None, upstream).forwarded,
        run(cache, c, body, None, upstream).cache == cache,
{
}

/// A transport failure of the provider call is answered with status 500 and
/// the failure's description as the body, and nothing is cached.
pub proof fn lemma_transport_failure_not_cached(
    cache: Map<Seq<char>, ReplyView>,
    c: Chain,
    body: Seq<char>,
    api_key: Seq<char>,
    description: Seq<char>,
)
    requires
        request_key(c, body) matches Some(k) && !cache.contains_key(k),
    ensures
        ({
            let r = run(cache, c, body, Some(api_key), Err(description));
            &&& r.result matches Ok(reply) && reply.status == 500 && reply.body == description
            &&& r.cache == cache
        }),
{
}

/// After a request that the provider answered, the same request again is a
/// cache hit: it makes no provider call and returns the same response,
/// whatever the credential or the provider would give the second time.
pub proof fn lemma_repeat_is_cache_hit(
    cache: Map<Seq<char>, ReplyView>,
    c: Chain,
    body: Seq<char>,
    api_key: Seq<char>,
    answer: Seq<char>,
    credential2: Option<Seq<char>>,
    upstream2: Result<Seq<char>, Seq<char>>,
)
    requires
        request_key(c, body) is Some,
    ensures
        ({
            let first = run(cache, c, body, Some(api_key), Ok(answer));
            let second = run(first.cache, c, body, credential2, upstream2);
            &&& !second.forwarded
            &&& second.result == first.result
            &&& second.cache == first.cache
        }),
{
}

} // verus!
