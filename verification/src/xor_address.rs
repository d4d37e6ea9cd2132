//! The XOR-MAPPED-ADDRESS attribute: the transport address a datagram was
//! seen to come from, masked with the magic cookie so that no middlebox
//! recognises and rewrites it.
//!
//! The value is 8 bytes: a zero byte, the address family, the masked port
//! and the masked address, both big-endian. Only IPv4 is handled.

use crate::message::MAGIC_COOKIE;
use crate::wire::{
    be_bytes_u16, be_bytes_u32, be_u16, be_u32, lemma_be_bytes_of_u32, lemma_be_u16_of_bytes,
    lemma_be_u32_of_bytes, u16_from_be_bytes, u16_to_be_bytes, u32_from_be_bytes, u32_to_be_bytes,
};
use vstd::prelude::*;

verus! {

/// The attribute type of XOR-MAPPED-ADDRESS.
pub const XOR_MAPPED_ADDRESS: u16 = 0x0020;

/// The address family of IPv4.
pub const FAMILY_IPV4: u8 = 0x01;

/// The number of bytes in the value of the attribute.
pub const XOR_MAPPED_ADDRESS_LENGTH: u16 = 8;

/// The most significant 16 bits of the magic cookie, which mask the port.
pub open spec fn magic_cookie_high() -> u16 {
    (MAGIC_COOKIE / 0x1_0000) as u16
}

/// An address and a port under the mask: the port XORed with the high half
/// of the magic cookie, the address, read as one big-endian number, XORed
/// with the whole of it. Masking twice gives the address and port back.
pub open spec fn masked(address: Seq<u8>, port: u16) -> (Seq<u8>, u16)
    recommends
        address.len() == 4,
{
    (be_bytes_u32(be_u32(address) ^ MAGIC_COOKIE), port ^ magic_cookie_high())
}

/// The value of the attribute for an address and a port.
pub open spec fn xor_mapped_address(address: Seq<u8>, port: u16) -> Seq<u8>
    recommends
        address.len() == 4,
{
    seq![0u8, FAMILY_IPV4] + be_bytes_u16(masked(address, port).1) + masked(address, port).0
}

/// The address and port that a value of the attribute stands for, where it
/// is 8 bytes that start with a zero byte and the IPv4 family.
pub open spec fn mapped_address(value: Seq<u8>) -> Option<(Seq<u8>, u16)> {
    if value.len() == 8 && value[0] == 0 && value[1] == FAMILY_IPV4 {
        Some(masked(value.subrange(4, 8), be_u16(value.subrange(2, 4))))
    } else {
        None
    }
}

/// Masks an address and a port, or takes the mask off again.
pub fn mask(address: [u8; 4], port: u16) -> (result: ([u8; 4], u16))
    ensures
        (result.0@, result.1) == masked(address@, port),
{
    let high: u16 = (MAGIC_COOKIE / 0x1_0000) as u16;
    (u32_to_be_bytes(u32_from_be_bytes(address) ^ MAGIC_COOKIE), port ^ high)
}

/// Builds the value of the attribute for the IPv4 address and the port that
/// a datagram came from.
pub fn create_xor_mapped_address_and_port(address: [u8; 4], port: u16) -> (value: [u8; 8])
    ensures
        value@ == xor_mapped_address(address@, port),
{
    let (xor_address, xor_port): ([u8; 4], u16) = mask(address, port);
    let xor_port: [u8; 2] = u16_to_be_bytes(xor_port);
    [
        0,
        FAMILY_IPV4,
        xor_port[0],
        xor_port[1],
        xor_address[0],
        xor_address[1],
        xor_address[2],
        xor_address[3],
    ]
}

/// Reads the address and the port out of a value of the attribute. A value
/// that is not 8 bytes long, or does not start with a zero byte and the
/// IPv4 family, gives `None`.
pub fn read_xor_mapped_address(value: &[u8]) -> (result: Option<([u8; 4], u16)>)
    ensures
        result matches Some((address, port)) ==> mapped_address(value@) == Some((address@, port)),
        result is None ==> mapped_address(value@) is None,
{
    if value.len() != 8 || value[0] != 0 || value[1] != FAMILY_IPV4 {
        return None;
    }
    let xor_port: [u8; 2] = [value[2], value[3]];
    let xor_address: [u8; 4] = [value[4], value[5], value[6], value[7]];
    Some(mask(xor_address, u16_from_be_bytes(xor_port)))
}

/// The mask is its own inverse: masking a masked address and port gives
/// them back.
pub proof fn lemma_masked_twice(address: Seq<u8>, port: u16)
    requires
        address.len() == 4,
    ensures
        masked(masked(address, port).0, masked(address, port).1) == (address, port),
{
    let number = be_u32(address);
    let high = magic_cookie_high();
    lemma_be_u32_of_bytes(number ^ MAGIC_COOKIE);
    lemma_be_bytes_of_u32(address);
    assert((number ^ MAGIC_COOKIE) ^ MAGIC_COOKIE == number) by (bit_vector);
    assert((port ^ high) ^ high == port) by (bit_vector);
}

/// The address and port come back from the value built for them.
pub proof fn lemma_mapped_address_of_xor_mapped_address(address: Seq<u8>, port: u16)
    requires
        address.len() == 4,
    ensures
        xor_mapped_address(address, port).len() == 8,
        mapped_address(xor_mapped_address(address, port)) == Some((address, port)),
{
    lemma_be_u16_of_bytes(masked(address, port).1);
    lemma_masked_twice(address, port);
}

} // verus!
