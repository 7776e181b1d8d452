//! Payload digests.
use vstd::prelude::*;

verus! {

/// The 32-byte BLAKE3 hash of `p`.
pub uninterp spec fn blake3_of(p: Seq<u8>) -> Seq<u8>;

/// Relies on blake3::hash and Hash::as_bytes: the default 32-byte BLAKE3 hash
/// of the input, with no key and no salt, so a function of the bytes alone.
#[verifier::external_body]
fn blake3_hash(p: &[u8]) -> (r: [u8; 32])
    ensures
        r@ == blake3_of(p@),
{
    *blake3::hash(p).as_bytes()
}

/// The digest of a payload.
pub fn digest(payload: &Vec<u8>) -> (r: [u8; 32])
    ensures
        r@ == blake3_of(payload@),
{
    blake3_hash(payload.as_slice())
}

/// Equal payloads have equal digests: the digest is a function of the bytes
/// alone, with nothing drawn from the call, the process or the machine.
pub proof fn lemma_digest_deterministic(p1: Seq<u8>, p2: Seq<u8>)
    requires
        p1 == p2,
    ensures
        blake3_of(p1) == blake3_of(p2),
{
}

} // verus!
