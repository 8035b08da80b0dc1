//! Case-insensitive prefix matching on byte strings.
//!
//! An address is matched by lowercasing its ASCII letters and asking whether
//! the target prefix is an initial segment of the result.

use vstd::prelude::*;

verus! {

/// The ASCII lowercase of one byte: letters `A`..`Z` map to `a`..`z`,
/// everything else is unchanged.
pub open spec fn lower_byte(b: u8) -> u8 {
    if 65 <= b <= 90 {
        (b + 32) as u8
    } else {
        b
    }
}

/// A byte string with every ASCII letter lowercased.
pub open spec fn lower_bytes(s: Seq<u8>) -> Seq<u8> {
    s.map_values(|b: u8| lower_byte(b))
}

/// `p` is an initial segment of `s`.
pub open spec fn is_prefix_of(p: Seq<u8>, s: Seq<u8>) -> bool {
    p.len() <= s.len() && p == s.take(p.len() as int)
}

/// The match predicate of the search: the address, case-normalized,
/// starts with the target prefix.
pub open spec fn spec_address_matches(addr: Seq<u8>, prefix: Seq<u8>) -> bool {
    is_prefix_of(prefix, lower_bytes(addr))
}

/// ASCII-lowercase one byte.
pub fn ascii_lower(b: u8) -> (r: u8)
    ensures
        r == lower_byte(b),
{
    if 65 <= b && b <= 90 {
        b + 32
    } else {
        b
    }
}

/// Decide whether `addr`, case-normalized, starts with `prefix`.
pub fn address_matches(addr: &[u8], prefix: &[u8]) -> (r: bool)
    ensures
        r == spec_address_matches(addr@, prefix@),
{
    if prefix.len() > addr.len() {
        return false;
    }
    let n = prefix.len();
    let mut i: usize = 0;
    while i < n
        invariant
            0 <= i <= n,
            n == prefix@.len(),
            n <= addr@.len(),
            forall|j: int| 0 <= j < i ==> prefix@[j] == lower_bytes(addr@)[j],
        decreases n - i,
    {
        if ascii_lower(addr[i]) != prefix[i] {
            assert(prefix@[i as int] != lower_bytes(addr@)[i as int]);
            return false;
        }
        i = i + 1;
    }
    assert(prefix@ =~= lower_bytes(addr@).take(n as int));
    true
}

/// The empty prefix matches every address: the trivial target.
pub proof fn lemma_empty_prefix_matches(addr: Seq<u8>)
    ensures
        spec_address_matches(addr, Seq::<u8>::empty()),
{
    assert(Seq::<u8>::empty() =~= lower_bytes(addr).take(0));
}

/// Matching is case-insensitive in the address: two addresses that agree
/// after case normalization match exactly the same prefixes.
pub proof fn lemma_matches_ignores_case(a1: Seq<u8>, a2: Seq<u8>, prefix: Seq<u8>)
    requires
        lower_bytes(a1) == lower_bytes(a2),
    ensures
        spec_address_matches(a1, prefix) == spec_address_matches(a2, prefix),
{
}

} // verus!
