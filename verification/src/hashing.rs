//! Deterministic fingerprinting of raw parameter bytes.
//!
//! The cache key of a request is a 64-bit FNV-1a hash of the raw `params`
//! span exactly as it was received: two requests with byte-identical
//! parameter payloads always collapse to the same fingerprint.

use vstd::prelude::*;

verus! {

use vstd::utf8::encode_utf8;

/// FNV-1a 64-bit offset basis.
pub const FNV_OFFSET: u64 = 0xcbf29ce484222325;

/// FNV-1a 64-bit prime.
pub const FNV_PRIME: u64 = 0x100000001b3;

/// One FNV-1a round: fold a byte into the running state.
pub open spec fn fnv1a_step(h: u64, b: u8) -> u64 {
    vstd::wrapping::u64_specs::wrapping_mul(h ^ (b as u64), FNV_PRIME)
}

/// FNV-1a hash of a byte sequence.
pub open spec fn fnv1a(bytes: Seq<u8>) -> u64
    decreases bytes.len(),
{
    if bytes.len() == 0 {
        FNV_OFFSET
    } else {
        fnv1a_step(fnv1a(bytes.drop_last()), bytes.last())
    }
}

/// Fingerprint of a parameter span: the FNV-1a hash of its UTF-8 bytes.
pub open spec fn fingerprint_of(params: Seq<char>) -> u64 {
    fnv1a(encode_utf8(params))
}

/// FNV-1a hash of a byte slice.
pub fn hash_bytes(bytes: &[u8]) -> (r: u64)
    ensures
        r == fnv1a(bytes@),
{
    let mut h: u64 = FNV_OFFSET;
    let mut i: usize = 0;
    while i < bytes.len()
        invariant
            0 <= i <= bytes@.len(),
            h == fnv1a(bytes@.take(i as int)),
        decreases bytes@.len() - i,
    {
        h = (h ^ (bytes[i] as u64)).wrapping_mul(FNV_PRIME);
        proof {
            assert(bytes@.take(i + 1).drop_last() =~= bytes@.take(i as int));
            assert(bytes@.take(i + 1).last() == bytes@[i as int]);
        }
        i = i + 1;
    }
    proof {
        assert(bytes@.take(bytes@.len() as int) =~= bytes@);
    }
    h
}

/// Fingerprint of a raw parameter span.
pub fn fingerprint_str(params: &str) -> (r: u64)
    ensures
        r == fingerprint_of(params@),
{
    hash_bytes(params.as_bytes())
}

/// Two parameter spans whose byte representations are identical always get
/// the same fingerprint, whatever the rest of the request looks like.
pub proof fn lemma_fingerprint_byte_identical(a: Seq<char>, b: Seq<char>)
    requires
        encode_utf8(a) == encode_utf8(b),
    ensures
        fingerprint_of(a) == fingerprint_of(b),
{
}

} // verus!
