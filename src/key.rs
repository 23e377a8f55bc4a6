//! Upstream endpoints and cache keys.
use vstd::prelude::*;
use crate::chain::{Chain, subdomain};

verus! {

/// The provider endpoint of a chain with `tail` as its last path segment.
pub open spec fn endpoint(c: Chain, tail: Seq<char>) -> Seq<char> {
    "https://"@ + subdomain(c) + ".g.alchemy.com/v2/"@ + tail
}

/// The decimal digit character for `d`, where `d < 10`.
pub open spec fn digit_char(d: nat) -> char {
    if d == 0 { '0' } else if d == 1 { '1' } else if d == 2 { '2' } else if d == 3 { '3' }
    else if d == 4 { '4' } else if d == 5 { '5' } else if d == 6 { '6' } else if d == 7 { '7' }
    else if d == 8 { '8' } else { '9' }
}

/// The decimal digits of `n`, most significant first, without leading zeros.
pub open spec fn digits(n: nat) -> Seq<char>
    decreases n,
{
    if n < 10 {
        seq![digit_char(n)]
    } else {
        digits(n / 10).push(digit_char(n % 10))
    }
}

/// The decimal text of an integer, with a leading `-` when it is negative.
pub open spec fn decimal(i: int) -> Seq<char> {
    if i < 0 {
        seq!['-'] + digits((-i) as nat)
    } else {
        digits(i as nat)
    }
}

/// The cache key of a request with identifier `id` on chain `c`.
pub open spec fn key_of(c: Chain, id: int) -> Seq<char> {
    endpoint(c, decimal(id))
}

fn digit_str(d: u64) -> (r: &'static str)
    requires
        d < 10,
    ensures
        r@ == seq![digit_char(d as nat)],
{
    proof {
        reveal_strlit("0");
        reveal_strlit("1");
        reveal_strlit("2");
        reveal_strlit("3");
        reveal_strlit("4");
        reveal_strlit("5");
        reveal_strlit("6");
        reveal_strlit("7");
        reveal_strlit("8");
        reveal_strlit("9");
    }
    let r = if d == 0 { "0" } else if d == 1 { "1" } else if d == 2 { "2" } else if d == 3 { "3" }
    else if d == 4 { "4" } else if d == 5 { "5" } else if d == 6 { "6" } else if d == 7 { "7" }
    else if d == 8 { "8" } else { "9" };
    assert(r@ =~= seq![digit_char(d as nat)]);
    r
}

fn push_digits(s: &mut String, n: u64)
    ensures
        final(s)@ == old(s)@ + digits(n as nat),
    decreases n,
{
    if n >= 10 {
        push_digits(s, n / 10);
    }
    s.append(digit_str(n % 10));
    assert(final(s)@ =~= old(s)@ + digits(n as nat));
}

/// Appends the decimal text of `i` to `s`.
fn push_decimal(s: &mut String, i: i32)
    ensures
        final(s)@ == old(s)@ + decimal(i as int),
{
    if i < 0 {
        s.append("-");
        proof { reveal_strlit("-"); }
        let m: i64 = -(i as i64);
        push_digits(s, m as u64);
        assert(final(s)@ =~= old(s)@ + decimal(i as int));
    } else {
        push_digits(s, i as u64);
    }
}

/// Writes the provider endpoint of `chain` up to its last path segment.
fn endpoint_prefix(chain: Chain) -> (r: String)
    ensures
        r@ == "https://"@ + subdomain(chain) + ".g.alchemy.com/v2/"@,
{
    let mut s = String::from_str("https://");
    s.append(chain.api_subdomain());
    s.append(".g.alchemy.com/v2/");
    s
}

/// The cache key for request identifier `id` on `chain`.
pub fn cache_key(chain: Chain, id: i32) -> (r: String)
    ensures
        r@ == key_of(chain, id as int),
{
    let mut s = endpoint_prefix(chain);
    push_decimal(&mut s, id);
    s
}

/// The upstream URL that authenticates with `api_key` on `chain`.
pub fn upstream_url(chain: Chain, api_key: &str) -> (r: String)
    ensures
        r@ == endpoint(chain, api_key@),
{
    let mut s = endpoint_prefix(chain);
    s.append(api_key);
    s
}

} // verus!
