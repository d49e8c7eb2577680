//! Account identifiers: the 20-byte addresses the host ledger authenticates.

use vstd::prelude::*;

verus! {

/// A 20-byte account identifier, as supplied by the host ledger for each
/// authenticated caller.
#[verifier::ext_equal]
#[derive(Clone, Copy, Debug)]
pub struct Address {
    pub bytes: [u8; 20],
}

impl View for Address {
    type V = Seq<u8>;

    open spec fn view(&self) -> Seq<u8> {
        self.bytes@
    }
}

/// The distinguished "no account" identifier: twenty zero bytes. It is the
/// value of the role-holder slot before the role has been claimed.
pub open spec fn null_address() -> Seq<u8> {
    Seq::new(20, |i: int| 0u8)
}

impl Address {
    /// The null sentinel.
    pub fn zero() -> (r: Address)
        ensures
            r@ == null_address(),
    {
        let a = Address { bytes: [0u8; 20] };
        proof {
            assert(a@ =~= null_address());
        }
        a
    }

    /// Whether this identifier is the null sentinel.
    pub open spec fn is_null(self) -> bool {
        self@ == null_address()
    }

    /// Byte-for-byte equality of two account identifiers.
    pub fn eq_addr(&self, other: &Address) -> (r: bool)
        ensures
            r == (self@ == other@),
    {
        let mut i: usize = 0;
        while i < 20
            invariant
                i <= 20,
                forall|j: int| 0 <= j < i ==> self.bytes@[j] == other.bytes@[j],
            decreases 20 - i,
        {
            if self.bytes[i] != other.bytes[i] {
                return false;
            }
            i = i + 1;
        }
        proof {
            assert(self.bytes =~= other.bytes);
        }
        true
    }
}

} // verus!
