//! Bit fields of bytes and big-endian integers, stated as arithmetic.

use vstd::prelude::*;

verus! {

/// The unsigned integer whose big-endian encoding is the two bytes.
pub open spec fn be16(high: u8, low: u8) -> int {
    high * 0x100 + low
}

/// The unsigned integer whose big-endian encoding is the four bytes.
pub open spec fn be32(a: u8, b: u8, c: u8, d: u8) -> int {
    be16(a, b) * 0x1_0000 + be16(c, d)
}

/// Whether the bit of weight `weight` is set in `byte`.
pub open spec fn has_bit(byte: u8, weight: int) -> bool {
    (byte as int / weight) % 2 == 1
}

pub fn from_be16(high: u8, low: u8) -> (value: u16)
    ensures
        value == be16(high, low),
{
    high as u16 * 0x100 + low as u16
}

pub fn from_be32(a: u8, b: u8, c: u8, d: u8) -> (value: u32)
    ensures
        value == be32(a, b, c, d),
{
    from_be16(a, b) as u32 * 0x1_0000 + from_be16(c, d) as u32
}

/// Masks and shifts of one byte as quotients and remainders.
pub proof fn lemma_byte_fields(byte: u8)
    ensures
        byte & 15 == byte % 16,
        byte & 31 == byte % 32,
        byte & 0x7f == byte % 128,
        byte >> 6 == byte / 64,
        (byte & 0x10 != 0) == has_bit(byte, 0x10),
        (byte & 0x20 != 0) == has_bit(byte, 0x20),
        (byte & 0x40 != 0) == has_bit(byte, 0x40),
        (byte & 0x80 != 0) == has_bit(byte, 0x80),
{
    assert(byte & 15 == byte % 16 && byte & 31 == byte % 32 && byte & 0x7f == byte % 128 && byte
        >> 6 == byte / 64 && ((byte & 0x10 != 0) == ((byte / 0x10) % 2 == 1)) && ((byte & 0x20
        != 0) == ((byte / 0x20) % 2 == 1)) && ((byte & 0x40 != 0) == ((byte / 0x40) % 2 == 1)) && ((
    byte & 0x80 != 0) == ((byte / 0x80) % 2 == 1))) by (bit_vector);
}

/// Big-endian numbers: the first byte weighs most.
pub proof fn law_first_bytes_weigh_most(a: u8, b: u8, c: u8, d: u8)
    ensures
        be16(c, d) == 256 * c + d,
        be32(a, b, c, d) == 16_777_216 * a + 65_536 * b + 256 * c + d,
{
}

} // verus!
