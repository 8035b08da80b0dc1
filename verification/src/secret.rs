//! Parsing a secret key from its environment-variable text: a JSON array of
//! integers, one per key byte.
//!
//! The JSON reading is supplied by serde_json behind a trusted wrapper whose
//! result is named; the narrowing of the parsed numbers to bytes is verified
//! here.

use vstd::prelude::*;

verus! {

/// The integers the text parses to, when it is one JSON document holding an
/// array of integers that each fit a `u64`; nothing otherwise. Parsing is a
/// function of the text alone.
pub uninterp spec fn json_u64_array_of(text: Seq<char>) -> Option<Seq<u64>>;

/// Relies on serde_json::from_str deserializing into `Vec<u64>`: it succeeds
/// exactly when the text is one JSON array whose elements are integers that
/// fit a `u64`, deterministically in the text alone.
#[verifier::external_body]
fn parse_u64_array(text: &str) -> (r: Option<Vec<u64>>)
    ensures
        match r {
            Some(xs) => json_u64_array_of(text@) == Some(xs@),
            None => json_u64_array_of(text@) is None,
        },
{
    serde_json::from_str::<Vec<u64>>(text).ok()
}

/// Narrow each number to its low byte: the number reduced mod 256, which is
/// what the truncating `as u8` cast computes.
pub fn truncate_to_bytes(xs: &Vec<u64>) -> (r: Vec<u8>)
    ensures
        r@.len() == xs@.len(),
        forall|i: int| 0 <= i < xs@.len() ==> r@[i] == (xs@[i] % 256) as u8,
{
    let mut bytes: Vec<u8> = Vec::new();
    let n = xs.len();
    let mut i: usize = 0;
    while i < n
        invariant
            0 <= i <= n,
            n == xs@.len(),
            bytes@.len() == i,
            forall|j: int| 0 <= j < i ==> bytes@[j] == (xs@[j] % 256) as u8,
        decreases n - i,
    {
        let b = (xs[i] % 256) as u8;
        bytes.push(b);
        i = i + 1;
    }
    bytes
}

/// Read a secret key from its textual form. It succeeds exactly when the
/// text parses as one JSON array of integers fitting a `u64`, and then holds
/// each integer reduced mod 256, in order, as the truncating `as u8` cast
/// does; `None` otherwise — never a partially converted vector.
pub fn parse_secret_key(text: &str) -> (r: Option<Vec<u8>>)
    ensures
        r is Some <==> json_u64_array_of(text@) is Some,
        json_u64_array_of(text@) matches Some(xs) ==> (r matches Some(b) && b@.len() == xs.len()
            && forall|i: int| 0 <= i < xs.len() ==> b@[i] == (xs[i] % 256) as u8),
{
    match parse_u64_array(text) {
        Some(xs) => Some(truncate_to_bytes(&xs)),
        None => None,
    }
}

} // verus!
