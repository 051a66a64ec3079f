//! The Keccak-256 digest, taken from ethers-core.
use vstd::prelude::*;

verus! {

/// The Keccak-256 digest of a byte sequence.
pub uninterp spec fn keccak_of(b: Seq<u8>) -> Seq<u8>;

/// Relies on `ethers_core::utils::keccak256`: a 32-byte digest that depends on
/// the input bytes alone.
#[verifier::external_body]
pub(crate) fn keccak(b: &[u8]) -> (r: Vec<u8>)
    ensures
        r@ == keccak_of(b@),
        r@.len() == 32,
{
    ethers_core::utils::keccak256(b).to_vec()
}

} // verus!
