//! Address encoding for I2C bus transactions.
//!
//! A logical slave address and a transfer direction are mapped onto the bytes
//! that actually appear on the wire: one byte in 7-bit mode, two bytes in
//! 10-bit (extended) addressing mode.

use vstd::prelude::*;

verus! {

/// Direction bit for a read transfer.
pub const READ_BIT: u8 = 0x1;
/// Direction bit for a write transfer.
pub const WRITE_BIT: u8 = 0x0;
/// Fixed five-bit prefix (0b11110) marking the first byte of a 10-bit address,
/// already aligned to the top of the byte.
pub const ADDRESS_10BIT: u8 = 0xF0;

/// The direction bit: 1 for read, 0 for write.
pub open spec fn direction_bit(read: bool) -> u8 {
    if read {
        READ_BIT
    } else {
        WRITE_BIT
    }
}

/// The single address byte of a 7-bit transaction: the address shifted left
/// once, with the direction bit in the lowest position.
pub open spec fn encoded_7bit(address: u16, read: bool) -> u8 {
    (((address << 1) as u8) | direction_bit(read)) as u8
}

/// First byte of a 10-bit address: the fixed 0b11110 prefix, address bits 9
/// and 8 immediately above the direction bit, and the direction bit itself.
pub open spec fn encoded_10bit_first(address: u16, read: bool) -> u8 {
    ((((address & 0x300) >> 7) as u8 & !0x1u8) | ADDRESS_10BIT | direction_bit(read)) as u8
}

/// Second byte of a 10-bit address: the low seven address bits verbatim
/// (bit 7 is ignored by the hardware).
pub open spec fn encoded_10bit_second(address: u16) -> u8 {
    (address & 0x7F) as u8
}

/// The byte sequence that addresses a slave, in the order it is queued into
/// the TX FIFO: one byte in 7-bit mode, two bytes in 10-bit mode.
pub open spec fn encoded_bytes(address: u16, read: bool, ten_bit: bool) -> Seq<u8> {
    if ten_bit {
        seq![encoded_10bit_first(address, read), encoded_10bit_second(address)]
    } else {
        seq![encoded_7bit(address, read)]
    }
}

/// Encode a 7-bit slave address together with the transfer direction.
pub fn encode_7bit(address: u16, read: bool) -> (byte: u8)
    requires
        address < 128,
    ensures
        byte == encoded_7bit(address, read),
{
    let d: u8 = if read {
        READ_BIT
    } else {
        WRITE_BIT
    };
    let byte = ((address as u8) << 1) | d;
    proof {
        assert(((address as u8) << 1) | d == (((address << 1) as u8) | d) as u8) by (bit_vector)
            requires
                address < 128,
        ;
    }
    byte
}

/// Encode a 10-bit slave address together with the transfer direction as the
/// two-byte extended-addressing sequence.
pub fn encode_10bit(address: u16, read: bool) -> (bytes: (u8, u8))
    requires
        address < 1024,
    ensures
        bytes.0 == encoded_10bit_first(address, read),
        bytes.1 == encoded_10bit_second(address),
{
    let d: u8 = if read {
        READ_BIT
    } else {
        WRITE_BIT
    };
    let upper = (((address & 0x300) >> 7) as u8) & !0x1u8;
    let first = upper | ADDRESS_10BIT | d;
    let second = (address & 0x7F) as u8;
    (first, second)
}

/// In a 7-bit address byte the address occupies the top seven bits and the
/// direction bit the lowest one, so both can be read back exactly.
pub proof fn lemma_encoded_7bit_fields(address: u16, read: bool)
    requires
        address < 128,
    ensures
        encoded_7bit(address, read) >> 1 == address as u8,
        encoded_7bit(address, read) & 1 == direction_bit(read),
        encoded_7bit(address, read) as u16 == (address << 1) | direction_bit(read) as u16,
{
    let d = direction_bit(read);
    assert(d == 0 || d == 1);
    assert((((address << 1) as u8) | d) >> 1 == address as u8 && (((address << 1) as u8) | d) & 1
        == d && ((((address << 1) as u8) | d) as u16) == ((address << 1) | d as u16))
        by (bit_vector)
        requires
            address < 128,
            d == 0 || d == 1,
    ;
}

/// In the first byte of a 10-bit address the top five bits are the fixed
/// 0b11110 prefix, the two bits below them are address bits 9 and 8, and the
/// lowest bit is the direction; the second byte carries the low seven address
/// bits.
pub proof fn lemma_encoded_10bit_fields(address: u16, read: bool)
    requires
        address < 1024,
    ensures
        encoded_10bit_first(address, read) >> 3 == 0x1E,
        (encoded_10bit_first(address, read) >> 1) & 0x3 == ((address >> 8) & 0x3) as u8,
        encoded_10bit_first(address, read) & 1 == direction_bit(read),
        encoded_10bit_second(address) == (address & 0x7F) as u8,
{
    let d = direction_bit(read);
    assert(d == 0 || d == 1);
    let first = ((((address & 0x300) >> 7) as u8 & !0x1u8) | 0xF0u8 | d) as u8;
    assert(first >> 3 == 0x1E && (first >> 1) & 0x3 == ((address >> 8) & 0x3) as u8 && first & 1
        == d) by (bit_vector)
        requires
            address < 1024,
            d == 0 || d == 1,
            first == ((((address & 0x300) >> 7) as u8 & !0x1u8) | 0xF0u8 | d) as u8,
    ;
}

} // verus!
