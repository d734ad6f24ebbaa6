//! Little-endian encoding of 64-bit integers into eight bytes.

use vstd::prelude::*;

verus! {

/// The byte of `x` at position `i`, counting from the least significant.
pub open spec fn le_byte(x: u64, i: int) -> u8 {
    ((x as int / byte_weight(i)) % 256) as u8
}

/// The weight of byte position `i` in a 64-bit integer: 256 raised to `i`, for
/// `i` from 0 to 7.
pub open spec fn byte_weight(i: int) -> int {
    if i <= 0 {
        1
    } else if i == 1 {
        0x100
    } else if i == 2 {
        0x1_0000
    } else if i == 3 {
        0x100_0000
    } else if i == 4 {
        0x1_0000_0000
    } else if i == 5 {
        0x100_0000_0000
    } else if i == 6 {
        0x1_0000_0000_0000
    } else {
        0x100_0000_0000_0000
    }
}

/// The eight bytes of `x`, least significant first.
pub open spec fn le_bytes(x: u64) -> Seq<u8> {
    Seq::new(8, |i: int| le_byte(x, i))
}

/// The integer whose little-endian bytes are the first eight entries of `s`.
pub open spec fn le_value(s: Seq<u8>) -> int
    recommends
        s.len() >= 8,
{
    s[0] as int + s[1] as int * byte_weight(1) + s[2] as int * byte_weight(2) + s[3] as int * byte_weight(3)
        + s[4] as int * byte_weight(4) + s[5] as int * byte_weight(5) + s[6] as int * byte_weight(6)
        + s[7] as int * byte_weight(7)
}

/// Decoding the encoding of `x` gives `x` back.
pub proof fn lemma_le_roundtrip(x: u64)
    ensures
        le_bytes(x).len() == 8,
        le_value(le_bytes(x)) == x,
{
    assert(x == (x % 256) + ((x / 0x100) % 256) * 0x100 + ((x / 0x1_0000) % 256) * 0x1_0000 + ((x
        / 0x100_0000) % 256) * 0x100_0000 + ((x / 0x1_0000_0000) % 256) * 0x1_0000_0000 + ((x
        / 0x100_0000_0000) % 256) * 0x100_0000_0000 + ((x / 0x1_0000_0000_0000) % 256)
        * 0x1_0000_0000_0000 + ((x / 0x100_0000_0000_0000) % 256) * 0x100_0000_0000_0000)
        by (bit_vector);
}

/// Encoding the value of eight bytes gives the same eight bytes back.
pub proof fn lemma_le_value_roundtrip(s: Seq<u8>)
    requires
        s.len() == 8,
    ensures
        0 <= le_value(s) <= u64::MAX,
        le_bytes(le_value(s) as u64) == s,
{
    let x = le_value(s) as u64;
    let (b0, b1, b2, b3) = (s[0], s[1], s[2], s[3]);
    let (b4, b5, b6, b7) = (s[4], s[5], s[6], s[7]);
    assert(x == b0 + b1 * 0x100 + b2 * 0x1_0000 + b3 * 0x100_0000 + b4 * 0x1_0000_0000 + b5
        * 0x100_0000_0000 + b6 * 0x1_0000_0000_0000 + b7 * 0x100_0000_0000_0000);
    assert(x % 256 == b0 && (x / 0x100) % 256 == b1 && (x / 0x1_0000) % 256 == b2 && (x
        / 0x100_0000) % 256 == b3 && (x / 0x1_0000_0000) % 256 == b4 && (x / 0x100_0000_0000) % 256
        == b5 && (x / 0x1_0000_0000_0000) % 256 == b6 && (x / 0x100_0000_0000_0000) % 256 == b7)
        by (bit_vector)
        requires
            x == b0 + b1 * 0x100 + b2 * 0x1_0000 + b3 * 0x100_0000 + b4 * 0x1_0000_0000 + b5
                * 0x100_0000_0000 + b6 * 0x1_0000_0000_0000 + b7 * 0x100_0000_0000_0000,
    ;
    assert(le_bytes(x) =~= s);
}

/// Encodes `x` as eight bytes, least significant first.
pub fn u64_to_le_bytes(x: u64) -> (bytes: [u8; 8])
    ensures
        bytes@ == le_bytes(x),
{
    let bytes: [u8; 8] = [
        (x % 256) as u8,
        ((x / 0x100) % 256) as u8,
        ((x / 0x1_0000) % 256) as u8,
        ((x / 0x100_0000) % 256) as u8,
        ((x / 0x1_0000_0000) % 256) as u8,
        ((x / 0x100_0000_0000) % 256) as u8,
        ((x / 0x1_0000_0000_0000) % 256) as u8,
        ((x / 0x100_0000_0000_0000) % 256) as u8,
    ];
    assert(bytes@ =~= le_bytes(x));
    bytes
}

/// Decodes eight little-endian bytes.
pub fn u64_from_le_bytes(bytes: [u8; 8]) -> (x: u64)
    ensures
        x == le_value(bytes@),
{
    let low: u64 = bytes[0] as u64 + bytes[1] as u64 * 0x100 + bytes[2] as u64 * 0x1_0000
        + bytes[3] as u64 * 0x100_0000;
    let high: u64 = bytes[4] as u64 + bytes[5] as u64 * 0x100 + bytes[6] as u64 * 0x1_0000
        + bytes[7] as u64 * 0x100_0000;
    low + high * 0x1_0000_0000
}

} // verus!
