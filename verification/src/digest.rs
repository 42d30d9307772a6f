//! The opaque pure primitives that candidate headers and solution digests
//! are derived with. Each digest is named by an uninterpreted function of
//! its input alone; the outside crates compute it.

use vstd::prelude::*;

verus! {

/// The 32-byte BLAKE2b digest of a byte sequence.
pub uninterp spec fn blake2b_of(data: Seq<u8>) -> Seq<u8>;

/// The 32-byte SHA3-256 digest of a byte sequence.
pub uninterp spec fn sha3_of(data: Seq<u8>) -> Seq<u8>;

/// Relies on blake2_rfc::blake2b::blake2b with a 32-byte digest length and
/// no key: the digest depends on the data alone.
#[verifier::external_body]
pub(crate) fn blake2b_256(data: &[u8]) -> (r: [u8; 32])
    ensures
        r@ == blake2b_of(data@),
{
    let result = blake2_rfc::blake2b::blake2b(32, &[], data);
    let mut out = [0u8; 32];
    out.copy_from_slice(result.as_bytes());
    out
}

/// Relies on tiny_keccak::Sha3::v256: the digest depends on the data alone.
#[verifier::external_body]
pub(crate) fn sha3_256(data: &[u8]) -> (r: [u8; 32])
    ensures
        r@ == sha3_of(data@),
{
    let mut sha3 = tiny_keccak::Sha3::v256();
    tiny_keccak::Hasher::update(&mut sha3, data);
    let mut out = [0u8; 32];
    tiny_keccak::Hasher::finalize(sha3, &mut out);
    out
}

/// Relies on rand's OsRng for a fresh operating-system random 64-bit value;
/// nothing is promised of the result.
#[verifier::external_body]
pub(crate) fn random_u64() -> u64 {
    rand::RngCore::next_u64(&mut rand::rngs::OsRng)
}

} // verus!
