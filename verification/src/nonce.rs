//! A monotonically incrementing counter used to sequence requests.

use crate::endian::{le_bytes, le_value, u64_from_le_bytes, u64_to_le_bytes};
use vstd::prelude::*;
use std::array::TryFromSliceError;
use vstd::std_specs::convert::{FromSpecImpl, TryFromSpecImpl};

verus! {

/// A 64-bit counter. The wrapped integer is the counter's value.
#[derive(Copy, Clone, PartialEq, Eq, PartialOrd, Ord, Hash, Debug, Structural)]
pub struct Nonce(pub u64);

impl Nonce {
    /// A counter holding `from`, or zero where no start value is given.
    pub fn new(from: Option<u64>) -> (nonce: Nonce)
        ensures
            nonce.0 == (match from {
                Some(value) => value,
                None => 0,
            }),
    {
        match from {
            Some(value) => Nonce(value),
            None => Nonce(0),
        }
    }

    /// The counter whose value has the little-endian encoding `bytes`.
    pub fn from_le_bytes(bytes: [u8; 8]) -> (nonce: Nonce)
        ensures
            nonce.0 == le_value(bytes@),
    {
        Nonce(u64_from_le_bytes(bytes))
    }

    /// The counter's value as eight bytes, least significant first.
    pub fn to_le_bytes(&self) -> (bytes: [u8; 8])
        ensures
            bytes@ == le_bytes(self.0),
    {
        u64_to_le_bytes(self.0)
    }

    /// The counter at zero.
    pub fn zero() -> (nonce: Nonce)
        ensures
            nonce.0 == 0,
    {
        Nonce(0)
    }

    /// A copy of the counter as it stands.
    pub fn current(&self) -> (nonce: Nonce)
        ensures
            nonce == *self,
    {
        Nonce(self.0)
    }

    /// The counter's value.
    pub fn get(&self) -> (value: u64)
        ensures
            value == self.0,
    {
        self.0
    }

    /// Advances the counter by one.
    pub fn increment(&mut self)
        requires
            old(self).0 < u64::MAX,
        ensures
            final(self).0 == old(self).0 + 1,
    {
        self.0 = self.0 + 1;
    }

    /// Advances the counter by one and returns the new value.
    pub fn next(&mut self) -> (nonce: Nonce)
        requires
            old(self).0 < u64::MAX,
        ensures
            final(self).0 == old(self).0 + 1,
            nonce == *final(self),
    {
        self.increment();
        self.current()
    }
}

/// The error with which std refuses to turn a slice into an array of another
/// length. Nothing is known of its contents.
#[verifier::external_type_specification]
#[verifier::external_body]
pub struct ExTryFromSliceError(TryFromSliceError);

/// std's conversion of a byte slice into an array of eight bytes
/// (`TryFrom<&[u8]>` for `[u8; 8]`): it succeeds exactly on slices of length
/// eight, and the array then holds the slice's bytes in order.
#[verifier::external_body]
fn array_of_eight(value: &[u8]) -> (converted: Result<[u8; 8], TryFromSliceError>)
    ensures
        converted is Ok <==> value@.len() == 8,
        converted matches Ok(bytes) ==> bytes@ == value@,
{
    value.try_into()
}

impl TryFrom<&[u8]> for Nonce {
    type Error = TryFromSliceError;

    /// Decodes a counter from exactly eight little-endian bytes; a slice of
    /// any other length is refused.
    fn try_from(value: &[u8]) -> (decoded: Result<Nonce, TryFromSliceError>)
        ensures
            decoded is Ok <==> value@.len() == 8,
            decoded matches Ok(nonce) ==> nonce.0 == le_value(value@),
    {
        match array_of_eight(value) {
            Ok(bytes) => Ok(Nonce::from_le_bytes(bytes)),
            Err(error) => Err(error),
        }
    }
}

/// What `try_from` returns is stated in its own contract: the error that std
/// hands out cannot be named in a specification.
impl TryFromSpecImpl<&[u8]> for Nonce {
    open spec fn obeys_try_from_spec() -> bool {
        false
    }

    open spec fn try_from_spec(value: &[u8]) -> Result<Nonce, TryFromSliceError> {
        arbitrary()
    }
}

impl Default for Nonce {
    /// The counter at zero.
    fn default() -> (nonce: Nonce)
        ensures
            nonce.0 == 0,
    {
        Nonce(0)
    }
}

impl From<u64> for Nonce {
    fn from(value: u64) -> (nonce: Nonce) {
        Nonce(value)
    }
}

impl FromSpecImpl<u64> for Nonce {
    open spec fn obeys_from_spec() -> bool {
        true
    }

    open spec fn from_spec(value: u64) -> Nonce {
        Nonce(value)
    }
}

impl From<Nonce> for u64 {
    fn from(value: Nonce) -> (number: u64) {
        value.0
    }
}

impl FromSpecImpl<Nonce> for u64 {
    open spec fn obeys_from_spec() -> bool {
        true
    }

    open spec fn from_spec(value: Nonce) -> u64 {
        value.0
    }
}

impl From<Nonce> for Vec<u8> {
    fn from(value: Nonce) -> (bytes: Vec<u8>)
        ensures
            bytes@ == le_bytes(value.0),
    {
        let encoded = u64_to_le_bytes(value.0);
        let mut bytes: Vec<u8> = Vec::new();
        let mut i: usize = 0;
        while i < 8
            invariant
                i <= 8,
                encoded@ == le_bytes(value.0),
                bytes@ == encoded@.take(i as int),
            decreases 8 - i,
        {
            bytes.push(encoded[i]);
            i = i + 1;
        }
        bytes
    }
}

/// What `from` returns is stated in its own contract, over the vector's
/// contents.
impl FromSpecImpl<Nonce> for Vec<u8> {
    open spec fn obeys_from_spec() -> bool {
        false
    }

    open spec fn from_spec(value: Nonce) -> Vec<u8> {
        arbitrary()
    }
}

} // verus!
