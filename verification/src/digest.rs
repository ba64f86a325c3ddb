use vstd::prelude::*;

verus! {

/// The Keccak-256 digest of a byte string. A function of the bytes alone;
/// its value is fixed by the external hash implementation.
pub uninterp spec fn keccak_of(bytes: Seq<u8>) -> Seq<u8>;

/// Relies on near_sdk::env::keccak256_array: the Keccak-256 digest of the
/// input, 32 bytes long, depending on the input bytes alone.
#[verifier::external_body]
pub fn keccak256(bytes: &[u8]) -> (r: [u8; 32])
    ensures
        r@ == keccak_of(bytes@),
{
    near_sdk::env::keccak256_array(bytes)
}

/// Law: the digest is deterministic. Hashing the same byte string twice
/// yields the identical digest, because the digest is a function of the
/// bytes alone.
pub proof fn lemma_digest_deterministic(a: Seq<u8>, b: Seq<u8>)
    requires
        a == b,
    ensures
        keccak_of(a) == keccak_of(b),
{
}

} // verus!
