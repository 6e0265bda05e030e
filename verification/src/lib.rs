use vstd::prelude::*;

verus! {

/// The digest that BLAKE3 assigns to a byte sequence. The algorithm itself is
/// not restated here: the value is pinned only by being a function of the
/// input bytes alone, which is what its documentation guarantees
/// (determinism across processes and machines).
pub uninterp spec fn blake3_digest(data: Seq<u8>) -> Seq<u8>;

/// Relies on blake3::hash: the one-shot digest, a pure function of the input
/// bytes, returned as the algorithm's fixed 32-byte output.
#[verifier::external_body]
fn hash_bytes(data: &[u8]) -> (r: [u8; 32])
    ensures
        r@ == blake3_digest(data@),
{
    *blake3::hash(data).as_bytes()
}

/// One-shot BLAKE3 digest of an arbitrary byte buffer.
///
/// Total over all inputs: every buffer, the empty one included, yields
/// exactly one 32-byte digest, and equal buffers yield equal digests.
pub fn blake3(data: Vec<u8>) -> (r: [u8; 32])
    ensures
        r@ == blake3_digest(data@),
        r@.len() == 32,
{
    hash_bytes(data.as_slice())
}

/// Determinism: the digest is a function of the input bytes alone, so equal
/// byte sequences always receive equal digests.
pub proof fn lemma_digest_deterministic(b1: Seq<u8>, b2: Seq<u8>)
    requires
        b1 == b2,
    ensures
        blake3_digest(b1) == blake3_digest(b2),
{
}

} // verus!
