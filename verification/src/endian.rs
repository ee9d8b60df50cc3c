//! Fixed-width little-endian integers, as the header stores them.

use vstd::prelude::*;

verus! {

/// The four bytes of `x`, least significant first.
pub open spec fn le_bytes_u32(x: u32) -> Seq<u8> {
    seq![
        (x % 0x100) as u8,
        (x / 0x100 % 0x100) as u8,
        (x / 0x1_0000 % 0x100) as u8,
        (x / 0x100_0000 % 0x100) as u8,
    ]
}

/// The number that four bytes stand for, the first byte weighing least.
pub open spec fn le_value_u32(bytes: Seq<u8>) -> int
    recommends
        bytes.len() == 4,
{
    bytes[0] + bytes[1] * 0x100 + bytes[2] * 0x1_0000 + bytes[3] * 0x100_0000
}

/// The eight bytes of `x`, least significant first.
pub open spec fn le_bytes_u64(x: u64) -> Seq<u8> {
    seq![
        (x % 0x100) as u8,
        (x / 0x100 % 0x100) as u8,
        (x / 0x1_0000 % 0x100) as u8,
        (x / 0x100_0000 % 0x100) as u8,
        (x / 0x1_0000_0000 % 0x100) as u8,
        (x / 0x100_0000_0000 % 0x100) as u8,
        (x / 0x1_0000_0000_0000 % 0x100) as u8,
        (x / 0x100_0000_0000_0000 % 0x100) as u8,
    ]
}

/// The number that eight bytes stand for, the first byte weighing least.
pub open spec fn le_value_u64(bytes: Seq<u8>) -> int
    recommends
        bytes.len() == 8,
{
    bytes[0] + bytes[1] * 0x100 + bytes[2] * 0x1_0000 + bytes[3] * 0x100_0000 + bytes[4]
        * 0x1_0000_0000 + bytes[5] * 0x100_0000_0000 + bytes[6] * 0x1_0000_0000_0000 + bytes[7]
        * 0x100_0000_0000_0000
}

/// Writing a 32-bit number out and reading the bytes back gives the number.
pub proof fn lemma_u32_value_of_bytes(x: u32)
    ensures
        le_bytes_u32(x).len() == 4,
        le_value_u32(le_bytes_u32(x)) == x,
{
}

/// Reading four bytes and writing the number out again gives the bytes.
pub proof fn lemma_u32_bytes_of_value(bytes: Seq<u8>)
    requires
        bytes.len() == 4,
    ensures
        0 <= le_value_u32(bytes) <= u32::MAX,
        le_bytes_u32(le_value_u32(bytes) as u32) == bytes,
{
    assert(le_bytes_u32(le_value_u32(bytes) as u32) =~= bytes);
}

/// Writing a 64-bit number out and reading the bytes back gives the number.
pub proof fn lemma_u64_value_of_bytes(x: u64)
    ensures
        le_bytes_u64(x).len() == 8,
        le_value_u64(le_bytes_u64(x)) == x,
{
    assert(x == x % 0x100 + (x / 0x100 % 0x100) * 0x100 + (x / 0x1_0000 % 0x100) * 0x1_0000 + (x
        / 0x100_0000 % 0x100) * 0x100_0000 + (x / 0x1_0000_0000 % 0x100) * 0x1_0000_0000 + (x
        / 0x100_0000_0000 % 0x100) * 0x100_0000_0000 + (x / 0x1_0000_0000_0000 % 0x100)
        * 0x1_0000_0000_0000 + (x / 0x100_0000_0000_0000 % 0x100) * 0x100_0000_0000_0000)
        by (bit_vector);
}

/// Reading eight bytes and writing the number out again gives the bytes.
pub proof fn lemma_u64_bytes_of_value(bytes: Seq<u8>)
    requires
        bytes.len() == 8,
    ensures
        0 <= le_value_u64(bytes) <= u64::MAX,
        le_bytes_u64(le_value_u64(bytes) as u64) == bytes,
{
    let b0 = bytes[0] as u64;
    let b1 = bytes[1] as u64;
    let b2 = bytes[2] as u64;
    let b3 = bytes[3] as u64;
    let b4 = bytes[4] as u64;
    let b5 = bytes[5] as u64;
    let b6 = bytes[6] as u64;
    let b7 = bytes[7] as u64;
    let v = le_value_u64(bytes);
    assert(0 <= v <= u64::MAX);
    let x = v as u64;
    assert(x % 0x100 == b0 && x / 0x100 % 0x100 == b1 && x / 0x1_0000 % 0x100 == b2 && x
        / 0x100_0000 % 0x100 == b3 && x / 0x1_0000_0000 % 0x100 == b4 && x / 0x100_0000_0000
        % 0x100 == b5 && x / 0x1_0000_0000_0000 % 0x100 == b6 && x / 0x100_0000_0000_0000 % 0x100
        == b7) by (bit_vector)
        requires
            b0 < 0x100 && b1 < 0x100 && b2 < 0x100 && b3 < 0x100 && b4 < 0x100 && b5 < 0x100 && b6
                < 0x100 && b7 < 0x100,
            x == b0 + b1 * 0x100 + b2 * 0x1_0000 + b3 * 0x100_0000 + b4 * 0x1_0000_0000 + b5
                * 0x100_0000_0000 + b6 * 0x1_0000_0000_0000 + b7 * 0x100_0000_0000_0000,
    ;
    assert(le_bytes_u64(x) =~= bytes);
}

/// Splits a 32-bit number into its little-endian bytes.
pub fn u32_to_le(x: u32) -> (bytes: [u8; 4])
    ensures
        bytes@ == le_bytes_u32(x),
{
    let b0 = (x & 0xff) as u8;
    let b1 = ((x >> 8) & 0xff) as u8;
    let b2 = ((x >> 16) & 0xff) as u8;
    let b3 = ((x >> 24) & 0xff) as u8;
    assert(x & 0xff == x % 0x100 && (x >> 8) & 0xff == x / 0x100 % 0x100 && (x >> 16) & 0xff == x
        / 0x1_0000 % 0x100 && (x >> 24) & 0xff == x / 0x100_0000 % 0x100) by (bit_vector);
    let bytes = [b0, b1, b2, b3];
    assert(bytes@ =~= le_bytes_u32(x));
    bytes
}

/// Joins four little-endian bytes into a 32-bit number.
pub fn u32_from_le(bytes: &[u8; 4]) -> (x: u32)
    ensures
        x == le_value_u32(bytes@),
{
    let b0 = bytes[0] as u32;
    let b1 = bytes[1] as u32;
    let b2 = bytes[2] as u32;
    let b3 = bytes[3] as u32;
    assert(b0 < 0x100 && b1 < 0x100 && b2 < 0x100 && b3 < 0x100 ==> (b3 << 24) | (b2 << 16) | (b1
        << 8) | b0 == b0 + b1 * 0x100 + b2 * 0x1_0000 + b3 * 0x100_0000) by (bit_vector);
    (b3 << 24) | (b2 << 16) | (b1 << 8) | b0
}

/// Splits a 64-bit number into its little-endian bytes.
pub fn u64_to_le(x: u64) -> (bytes: [u8; 8])
    ensures
        bytes@ == le_bytes_u64(x),
{
    let b0 = (x & 0xff) as u8;
    let b1 = ((x >> 8) & 0xff) as u8;
    let b2 = ((x >> 16) & 0xff) as u8;
    let b3 = ((x >> 24) & 0xff) as u8;
    let b4 = ((x >> 32) & 0xff) as u8;
    let b5 = ((x >> 40) & 0xff) as u8;
    let b6 = ((x >> 48) & 0xff) as u8;
    let b7 = ((x >> 56) & 0xff) as u8;
    assert(x & 0xff == x % 0x100 && (x >> 8) & 0xff == x / 0x100 % 0x100 && (x >> 16) & 0xff == x
        / 0x1_0000 % 0x100 && (x >> 24) & 0xff == x / 0x100_0000 % 0x100) by (bit_vector);
    assert((x >> 32) & 0xff == x / 0x1_0000_0000 % 0x100 && (x >> 40) & 0xff == x
        / 0x100_0000_0000 % 0x100 && (x >> 48) & 0xff == x / 0x1_0000_0000_0000 % 0x100 && (x
        >> 56) & 0xff == x / 0x100_0000_0000_0000 % 0x100) by (bit_vector);
    let bytes = [b0, b1, b2, b3, b4, b5, b6, b7];
    assert(bytes@ =~= le_bytes_u64(x));
    bytes
}

/// Joins eight little-endian bytes into a 64-bit number.
pub fn u64_from_le(bytes: &[u8; 8]) -> (x: u64)
    ensures
        x == le_value_u64(bytes@),
{
    let b0 = bytes[0] as u64;
    let b1 = bytes[1] as u64;
    let b2 = bytes[2] as u64;
    let b3 = bytes[3] as u64;
    let b4 = bytes[4] as u64;
    let b5 = bytes[5] as u64;
    let b6 = bytes[6] as u64;
    let b7 = bytes[7] as u64;
    assert(b0 < 0x100 && b1 < 0x100 && b2 < 0x100 && b3 < 0x100 && b4 < 0x100 && b5 < 0x100 && b6
        < 0x100 && b7 < 0x100 ==> (b7 << 56) | (b6 << 48) | (b5 << 40) | (b4 << 32) | (b3 << 24)
        | (b2 << 16) | (b1 << 8) | b0 == b0 + b1 * 0x100 + b2 * 0x1_0000 + b3 * 0x100_0000 + b4
        * 0x1_0000_0000 + b5 * 0x100_0000_0000 + b6 * 0x1_0000_0000_0000 + b7
        * 0x100_0000_0000_0000) by (bit_vector);
    (b7 << 56) | (b6 << 48) | (b5 << 40) | (b4 << 32) | (b3 << 24) | (b2 << 16) | (b1 << 8) | b0
}

} // verus!
