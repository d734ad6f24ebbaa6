//! A 32-byte identifier of an account held under one principal.

use vstd::prelude::*;

verus! {

/// The number of bytes in a subaccount identifier.
pub const SUBACCOUNT_LEN: usize = 32;

/// A subaccount identifier: exactly 32 raw bytes.
#[derive(Copy, Clone, PartialEq, Eq, Hash, Debug)]
pub struct Subaccount(pub [u8; 32]);

/// Why a byte slice is not a subaccount identifier.
#[derive(Copy, Clone, PartialEq, Eq, Debug, Structural)]
pub enum SubaccountError {
    /// The slice does not hold exactly 32 bytes.
    WrongLength,
}

impl View for Subaccount {
    type V = Seq<u8>;

    /// The identifier's 32 bytes, in order.
    open spec fn view(&self) -> Seq<u8> {
        self.0@
    }
}

impl Subaccount {
    /// Reads an identifier from a slice of exactly 32 bytes.
    pub fn from_slice(slice: &[u8]) -> (parsed: Result<Subaccount, SubaccountError>)
        ensures
            slice@.len() == 32 ==> parsed is Ok && parsed->Ok_0@ == slice@,
            slice@.len() != 32 ==> parsed == Err::<Subaccount, SubaccountError>(
                SubaccountError::WrongLength,
            ),
    {
        if slice.len() != SUBACCOUNT_LEN {
            return Err(SubaccountError::WrongLength);
        }
        let mut raw: [u8; 32] = [0u8; 32];
        let mut i: usize = 0;
        while i < SUBACCOUNT_LEN
            invariant
                i <= 32,
                slice@.len() == 32,
                forall|j: int| 0 <= j < i ==> raw@[j] == slice@[j],
            decreases 32 - i,
        {
            raw[i] = slice[i];
            i = i + 1;
        }
        assert(raw@ =~= slice@);
        Ok(Subaccount(raw))
    }
}

} // verus!
