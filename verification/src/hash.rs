//! The one cryptographic primitive the error encoding needs: Keccak-256.

use vstd::prelude::*;

verus! {

/// The 32-byte Keccak-256 digest of a byte string. The digest itself is far
/// too long to state here; it is a function of the input bytes alone, so it
/// is given a name and every contract speaks of that name.
pub uninterp spec fn keccak256_of(input: Seq<u8>) -> Seq<u8>;

/// Relies on stylus_sdk::crypto::keccak, which computes alloy's `keccak256`:
/// the 32-byte Keccak-256 digest of the input, a function of the input bytes
/// alone.
#[verifier::external_body]
pub(crate) fn keccak256(input: &[u8]) -> (r: Vec<u8>)
    ensures
        r@ == keccak256_of(input@),
        r@.len() == 32,
{
    stylus_sdk::crypto::keccak(input).0.to_vec()
}

} // verus!
