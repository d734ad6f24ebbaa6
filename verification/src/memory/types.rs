//! What is persisted in stable memory, and the fixed-width byte encodings
//! under which counters, timestamps and identifiers are stored there.

use crate::endian::{le_bytes, le_value};
use crate::nonce::Nonce;
use crate::subaccount::Subaccount;
use crate::timestamp::NanoTimeStamp;
use vstd::prelude::*;

verus! {

/// A named partition of stable memory and the number of entries it holds.
#[derive(Clone, Debug)]
pub struct PartitionDetail {
    pub name: String,
    pub len: u64,
}

/// The first eight bytes of a slice, as an array.
fn leading_eight(bytes: &[u8]) -> (head: [u8; 8])
    requires
        bytes@.len() >= 8,
    ensures
        head@ == bytes@.take(8),
{
    let head: [u8; 8] = [
        bytes[0],
        bytes[1],
        bytes[2],
        bytes[3],
        bytes[4],
        bytes[5],
        bytes[6],
        bytes[7],
    ];
    assert(head@ =~= bytes@.take(8));
    head
}

/// An array of eight bytes as a vector.
fn vec_of_eight(encoded: [u8; 8]) -> (bytes: Vec<u8>)
    ensures
        bytes@ == encoded@,
{
    let mut bytes: Vec<u8> = Vec::new();
    let mut i: usize = 0;
    while i < 8
        invariant
            i <= 8,
            bytes@ == encoded@.take(i as int),
        decreases 8 - i,
    {
        bytes.push(encoded[i]);
        i = i + 1;
    }
    bytes
}

impl Nonce {
    /// The largest number of bytes an encoded counter takes.
    pub const MAX_SIZE: u32 = 8;

    /// Every counter is encoded in the same number of bytes.
    pub const IS_FIXED_SIZE: bool = true;

    /// The stored form of the counter: its value in eight little-endian bytes.
    pub fn to_bytes(&self) -> (bytes: Vec<u8>)
        ensures
            bytes@ == le_bytes(self.0),
    {
        vec_of_eight(self.to_le_bytes())
    }

    /// Reads a counter back from its stored form. Only the first eight bytes
    /// are read.
    pub fn from_bytes(bytes: &[u8]) -> (nonce: Nonce)
        requires
            bytes@.len() >= 8,
        ensures
            nonce.0 == le_value(bytes@.take(8)),
    {
        Nonce::from_le_bytes(leading_eight(bytes))
    }
}

impl NanoTimeStamp {
    /// The largest number of bytes an encoded timestamp takes.
    pub const MAX_SIZE: u32 = 8;

    /// Every timestamp is encoded in the same number of bytes.
    pub const IS_FIXED_SIZE: bool = true;

    /// The stored form of the timestamp: its count in eight little-endian
    /// bytes.
    pub fn to_bytes(&self) -> (bytes: Vec<u8>)
        ensures
            bytes@ == le_bytes(self.0),
    {
        vec_of_eight(self.to_le_bytes())
    }

    /// Reads a timestamp back from its stored form. Only the first eight bytes
    /// are read.
    pub fn from_bytes(bytes: &[u8]) -> (stamp: NanoTimeStamp)
        requires
            bytes@.len() >= 8,
        ensures
            stamp.0 == le_value(bytes@.take(8)),
    {
        NanoTimeStamp::from_le_bytes(leading_eight(bytes))
    }
}

/// `Storable::to_bytes` of the stable-structures crate on an array of 32
/// bytes. The crate hands back the array's own bytes, in order, as a slice;
/// they are copied into a vector here.
#[verifier::external_body]
fn stored_array(raw: &[u8; 32]) -> (bytes: Vec<u8>)
    ensures
        bytes@ == raw@,
{
    b3_stable_structures::Storable::to_bytes(raw).into_owned()
}

impl Subaccount {
    /// The largest number of bytes an encoded identifier takes.
    pub const MAX_SIZE: u32 = 32;

    /// Every identifier is encoded in the same number of bytes.
    pub const IS_FIXED_SIZE: bool = true;

    /// The stored form of the identifier: its 32 raw bytes.
    pub fn to_bytes(&self) -> (bytes: Vec<u8>)
        ensures
            bytes@ == self@,
    {
        stored_array(&self.0)
    }

    /// Reads an identifier back from its stored form.
    pub fn from_bytes(bytes: &[u8]) -> (subaccount: Subaccount)
        requires
            bytes@.len() == 32,
        ensures
            subaccount@ == bytes@,
    {
        Subaccount::from_slice(bytes).unwrap()
    }
}

/// A stored counter reads back as the counter that was stored.
pub proof fn lemma_nonce_storage_roundtrip(nonce: Nonce)
    ensures
        le_bytes(nonce.0).len() == Nonce::MAX_SIZE,
        le_value(le_bytes(nonce.0).take(8)) == nonce.0,
{
    crate::endian::lemma_le_roundtrip(nonce.0);
    assert(le_bytes(nonce.0).take(8) =~= le_bytes(nonce.0));
}

/// A stored timestamp reads back as the timestamp that was stored.
pub proof fn lemma_timestamp_storage_roundtrip(stamp: NanoTimeStamp)
    ensures
        le_bytes(stamp.0).len() == NanoTimeStamp::MAX_SIZE,
        le_value(le_bytes(stamp.0).take(8)) == stamp.0,
{
    crate::endian::lemma_le_roundtrip(stamp.0);
    assert(le_bytes(stamp.0).take(8) =~= le_bytes(stamp.0));
}

} // verus!
