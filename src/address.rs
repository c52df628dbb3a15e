use vstd::prelude::*;

use crate::error::ErrorCode;

verus! {

broadcast use vstd::array::group_array_axioms;

/// Length in bytes of an account identity.
pub const ADDRESS_LEN: usize = 32;

/// The identity of an account: the 32 bytes of its public key.
#[derive(Clone, Copy, Debug)]
pub struct Address {
    pub bytes: [u8; 32],
}

impl Address {
    pub fn new(bytes: [u8; 32]) -> (r: Address)
        ensures
            r.bytes == bytes,
    {
        Address { bytes }
    }

    /// Byte-wise comparison of two identities.
    pub fn same_as(&self, other: &Address) -> (r: bool)
        ensures
            r == (*self == *other),
    {
        let mut i: usize = 0;
        while i < ADDRESS_LEN
            invariant
                0 <= i <= ADDRESS_LEN,
                forall|j: int| 0 <= j < i ==> self.bytes[j] == other.bytes[j],
            decreases ADDRESS_LEN - i,
        {
            if self.bytes[i] != other.bytes[i] {
                return false;
            }
            i = i + 1;
        }
        assert(self.bytes@ =~= other.bytes@);
        assert(self.bytes == other.bytes);
        true
    }
}

/// The guard in front of every administrative operation: the verified caller
/// must be the authority stored in the record it acts on.
pub fn authorize(stored: &Address, signer: &Address) -> (r: Result<(), ErrorCode>)
    ensures
        r is Ok <==> *stored == *signer,
        r is Err ==> r == Err::<(), ErrorCode>(ErrorCode::Unauthorized),
{
    if stored.same_as(signer) {
        Ok(())
    } else {
        Err(ErrorCode::Unauthorized)
    }
}

} // verus!
