//! Verification service core for privacy-preserving balance attestation:
//! a byte-relay bridging a framed client transport to the engine's duplex
//! channel, the policy that decides whether an engine output is
//! acceptable, and a deterministic attestation signer with a fixed binary
//! message layout. Everything here is stated and proved over plain byte
//! values; the network, the clock and the verification engine itself stay
//! with the program around this library.

use vstd::prelude::*;
use vstd::slice::slice_subrange;

pub mod attestation;
pub mod bridge;
pub mod crypto;
pub mod errors;
pub mod hexfmt;
pub mod output;
pub mod policy;
pub mod session;

verus! {

/// The UTF-8 encoding of a sequence of characters: the bytes a `String`
/// with those characters occupies. Contracts about string fields are
/// stated over these bytes, since the wire formats here are byte-oriented.
pub open spec fn str_bytes(s: Seq<char>) -> Seq<u8> {
    vstd::utf8::encode_utf8(s)
}

/// Whether `b` ends with the byte sequence `suffix`.
pub open spec fn seq_ends_with(b: Seq<u8>, suffix: Seq<u8>) -> bool {
    b.len() >= suffix.len() && b.subrange(b.len() - suffix.len(), b.len() as int) == suffix
}

/// Byte-for-byte equality of two slices.
pub fn bytes_eq(a: &[u8], b: &[u8]) -> (r: bool)
    ensures
        r == (a@ == b@),
{
    if a.len() != b.len() {
        assert(a@ != b@) by {
            assert(a@.len() != b@.len());
        }
        return false;
    }
    let n: usize = a.len();
    for i in 0..n
        invariant
            n == a@.len() && n == b@.len(),
            forall|j: int| 0 <= j < i ==> a@[j] == b@[j],
    {
        if a[i] != b[i] {
            return false;
        }
    }
    assert(a@ =~= b@);
    true
}

/// Whether the slice `b` ends with the byte slice `suffix`.
pub fn slice_ends_with(b: &[u8], suffix: &[u8]) -> (r: bool)
    ensures
        r == seq_ends_with(b@, suffix@),
{
    if suffix.len() > b.len() {
        return false;
    }
    let start: usize = b.len() - suffix.len();
    let tail: &[u8] = slice_subrange(b, start, b.len());
    bytes_eq(tail, suffix)
}

} // verus!
