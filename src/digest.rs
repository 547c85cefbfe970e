//! The digest that summarises a journal too long to be returned as it is.

use vstd::prelude::*;

verus! {

/// The SHA-256 digest of a byte sequence, as its 32 bytes.
pub uninterp spec fn sha256_of(b: Seq<u8>) -> Seq<u8>;

/// Relies on risc0_zkp's `Sha256::hash_bytes`: the SHA-256 digest of the bytes,
/// with the standard padding and length trailer; its `Digest` holds eight
/// words, read here through `as_bytes` as 32 bytes.
#[verifier::external_body]
pub(crate) fn sha256(b: &Vec<u8>) -> (r: Vec<u8>)
    ensures
        r@ == sha256_of(b@),
        r@.len() == 32,
{
    let d = <risc0_zkp::core::hash::sha::Impl as risc0_zkp::core::hash::sha::Sha256>::hash_bytes(
        b.as_slice(),
    );
    d.as_bytes().to_vec()
}

} // verus!
