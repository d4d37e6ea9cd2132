//! Integers on the wire: big-endian, most significant byte first.

use vstd::prelude::*;

verus! {

/// The 16-bit number that two bytes spell.
pub open spec fn be_u16(bytes: Seq<u8>) -> u16
    recommends
        bytes.len() == 2,
{
    (bytes[0] * 0x100 + bytes[1]) as u16
}

/// The two bytes that spell a 16-bit number.
pub open spec fn be_bytes_u16(value: u16) -> Seq<u8> {
    seq![(value / 0x100) as u8, (value % 0x100) as u8]
}

/// The 32-bit number that four bytes spell.
pub open spec fn be_u32(bytes: Seq<u8>) -> u32
    recommends
        bytes.len() == 4,
{
    (bytes[0] * 0x100_0000 + bytes[1] * 0x1_0000 + bytes[2] * 0x100 + bytes[3]) as u32
}

/// The four bytes that spell a 32-bit number.
pub open spec fn be_bytes_u32(value: u32) -> Seq<u8> {
    seq![
        (value / 0x100_0000) as u8,
        (value / 0x1_0000 % 0x100) as u8,
        (value / 0x100 % 0x100) as u8,
        (value % 0x100) as u8,
    ]
}

/// Reads a 16-bit number from its two bytes.
pub fn u16_from_be_bytes(bytes: [u8; 2]) -> (value: u16)
    ensures
        value == be_u16(bytes@),
{
    (bytes[0] as u16) * 0x100 + (bytes[1] as u16)
}

/// Writes a 16-bit number as its two bytes.
pub fn u16_to_be_bytes(value: u16) -> (bytes: [u8; 2])
    ensures
        bytes@ == be_bytes_u16(value),
{
    [(value / 0x100) as u8, (value % 0x100) as u8]
}

/// Reads a 32-bit number from its four bytes.
pub fn u32_from_be_bytes(bytes: [u8; 4]) -> (value: u32)
    ensures
        value == be_u32(bytes@),
{
    (bytes[0] as u32) * 0x100_0000 + (bytes[1] as u32) * 0x1_0000 + (bytes[2] as u32) * 0x100
        + (bytes[3] as u32)
}

/// Writes a 32-bit number as its four bytes.
pub fn u32_to_be_bytes(value: u32) -> (bytes: [u8; 4])
    ensures
        bytes@ == be_bytes_u32(value),
{
    [
        (value / 0x100_0000) as u8,
        (value / 0x1_0000 % 0x100) as u8,
        (value / 0x100 % 0x100) as u8,
        (value % 0x100) as u8,
    ]
}

/// A 16-bit number comes back from its two bytes.
pub proof fn lemma_be_u16_of_bytes(value: u16)
    ensures
        be_bytes_u16(value).len() == 2,
        be_u16(be_bytes_u16(value)) == value,
{
}

/// Two bytes come back from the number they spell.
pub proof fn lemma_be_bytes_of_u16(bytes: Seq<u8>)
    requires
        bytes.len() == 2,
    ensures
        be_bytes_u16(be_u16(bytes)) == bytes,
{
}

/// A 32-bit number comes back from its four bytes.
pub proof fn lemma_be_u32_of_bytes(value: u32)
    ensures
        be_bytes_u32(value).len() == 4,
        be_u32(be_bytes_u32(value)) == value,
{
}

/// Four bytes come back from the number they spell.
pub proof fn lemma_be_bytes_of_u32(bytes: Seq<u8>)
    requires
        bytes.len() == 4,
    ensures
        be_bytes_u32(be_u32(bytes)) == bytes,
{
    let low: int = bytes[1] * 0x1_0000 + bytes[2] * 0x100 + bytes[3];
    let value: int = bytes[0] * 0x100_0000 + low;
    assert(0 <= low < 0x100_0000);
    assert(value / 0x100_0000 == bytes[0]);
    assert(value / 0x1_0000 == bytes[0] * 0x100 + bytes[1]);
    assert(value / 0x100 == bytes[0] * 0x1_0000 + bytes[1] * 0x100 + bytes[2]);
    assert(be_bytes_u32(be_u32(bytes)) =~= bytes);
}

} // verus!
