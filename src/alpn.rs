//! Protocol identifiers: a fixed namespace followed by a strategy's suffix.

use vstd::prelude::*;
use vstd::string::StringExecFns;

verus! {

/// The namespace shared by every protocol identifier of the tunnel.
pub const ALPN_PREFIX: &'static str = "ptunp/v0";

/// The identifier registered for the strategy whose suffix is `suffix`.
pub open spec fn alpn_of(suffix: Seq<char>) -> Seq<char> {
    ALPN_PREFIX@ + suffix
}

/// Builds the identifier under which a strategy with suffix `suffix` is registered.
pub fn compose_alpn(suffix: &str) -> (r: String)
    ensures
        r@ == alpn_of(suffix@),
{
    let mut id = ALPN_PREFIX.to_owned();
    id.append(suffix);
    id
}

/// Composing the identifier for one suffix always gives the same string.
pub proof fn lemma_alpn_stable(suffix: Seq<char>, first: Seq<char>, second: Seq<char>)
    requires
        first == alpn_of(suffix),
        second == alpn_of(suffix),
    ensures
        first == second,
{
}

/// Two different suffixes never give the same identifier.
pub proof fn lemma_alpn_distinct(a: Seq<char>, b: Seq<char>)
    requires
        a != b,
    ensures
        alpn_of(a) != alpn_of(b),
{
    let p = ALPN_PREFIX@;
    if alpn_of(a) == alpn_of(b) {
        assert(alpn_of(a).subrange(p.len() as int, alpn_of(a).len() as int) =~= a);
        assert(alpn_of(b).subrange(p.len() as int, alpn_of(b).len() as int) =~= b);
    }
}

} // verus!
