//! A point in time, counted in nanoseconds.

use crate::endian::{le_bytes, le_value, u64_from_le_bytes, u64_to_le_bytes};
use vstd::prelude::*;

verus! {

/// A timestamp: the number of nanoseconds since the epoch.
#[derive(Copy, Clone, PartialEq, Eq, PartialOrd, Ord, Hash, Debug, Structural)]
pub struct NanoTimeStamp(pub u64);

impl NanoTimeStamp {
    /// The timestamp whose count has the little-endian encoding `bytes`.
    pub fn from_le_bytes(bytes: [u8; 8]) -> (stamp: NanoTimeStamp)
        ensures
            stamp.0 == le_value(bytes@),
    {
        NanoTimeStamp(u64_from_le_bytes(bytes))
    }

    /// The count as eight bytes, least significant first.
    pub fn to_le_bytes(&self) -> (bytes: [u8; 8])
        ensures
            bytes@ == le_bytes(self.0),
    {
        u64_to_le_bytes(self.0)
    }
}

} // verus!
