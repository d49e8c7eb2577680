//! The closed set of failures a call can revert with, and their encoding as
//! the revert payload the host hands back to the caller.

use vstd::prelude::*;

use crate::hash::keccak256;
use crate::hash::keccak256_of;

verus! {

/// The two failure kinds, one per authorization boundary. Every failure is
/// surfaced as a full call revert; there is no recovery and no partial
/// effect.
#[derive(Clone, Copy, Debug, PartialEq, Eq, Structural)]
pub enum ContractError {
    /// The one-time role assignment was attempted after it had already
    /// succeeded.
    AlreadyInitialized,
    /// The restricted signal was requested by an account other than the role
    /// holder.
    NotPinger,
}

/// The ASCII bytes of the signature `AlreadyInitialized()`.
pub open spec fn already_initialized_signature() -> Seq<u8> {
    seq![
        65u8, 108u8, 114u8, 101u8, 97u8, 100u8, 121u8, 73u8, 110u8, 105u8, 116u8, 105u8, 97u8,
        108u8, 105u8, 122u8, 101u8, 100u8, 40u8, 41u8,
    ]
}

/// The ASCII bytes of the signature `NotPinger()`.
pub open spec fn not_pinger_signature() -> Seq<u8> {
    seq![78u8, 111u8, 116u8, 80u8, 105u8, 110u8, 103u8, 101u8, 114u8, 40u8, 41u8]
}

/// The ABI signature of an error: the text the 4-byte selector is derived
/// from.
pub open spec fn error_signature(e: ContractError) -> Seq<u8> {
    match e {
        ContractError::AlreadyInitialized => already_initialized_signature(),
        ContractError::NotPinger => not_pinger_signature(),
    }
}

/// The revert payload of an error: the first four bytes of the Keccak-256
/// digest of its signature. Both errors carry no fields, so the payload is
/// the selector alone.
pub open spec fn revert_data(e: ContractError) -> Seq<u8> {
    keccak256_of(error_signature(e)).take(4)
}

impl ContractError {
    /// The bytes the host receives when a call reverts with this error.
    pub fn abi_encode(&self) -> (r: Vec<u8>)
        ensures
            r@ == revert_data(*self),
            r@.len() == 4,
    {
        let sig: Vec<u8> = match self {
            ContractError::AlreadyInitialized => {
                let b: [u8; 20] = [
                    65, 108, 114, 101, 97, 100, 121, 73, 110, 105, 116, 105, 97, 108, 105, 122,
                    101, 100, 40, 41,
                ];
                proof {
                    assert(b@ =~= already_initialized_signature());
                }
                vstd::slice::slice_to_vec(b.as_slice())
            },
            ContractError::NotPinger => {
                let b: [u8; 11] = [78, 111, 116, 80, 105, 110, 103, 101, 114, 40, 41];
                proof {
                    assert(b@ =~= not_pinger_signature());
                }
                vstd::slice::slice_to_vec(b.as_slice())
            },
        };
        let mut digest = keccak256(sig.as_slice());
        digest.truncate(4);
        proof {
            assert(digest@ =~= revert_data(*self));
        }
        digest
    }
}

} // verus!
