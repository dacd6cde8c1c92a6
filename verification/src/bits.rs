//! Words and bit fields: reading a little-endian word from bytes, and
//! widening a two's complement field to a full machine integer.

use byteorder::{LittleEndian, ReadBytesExt};
use register_bits::reg32::{Reg32Bits, Reg32BitsDownCast, Reg32BitsUpCast};
use register_bits::reg64::{Reg64Bits, Reg64BitsDownCast, Reg64BitsUpCast};
use vstd::prelude::*;

verus! {

/// The word whose little-endian encoding is the first four bytes of `bytes`.
pub open spec fn le_word(bytes: Seq<u8>) -> u32
    recommends
        bytes.len() >= 4,
{
    (bytes[0] + 0x100 * bytes[1] + 0x1_0000 * bytes[2] + 0x100_0000 * bytes[3]) as u32
}

/// The number that `field` stands for when it is read as a two's complement
/// field with `modulus` values: the upper half of the range is negative.
pub open spec fn signed_value(field: int, modulus: int) -> int
    recommends
        0 <= field < modulus,
{
    if 2 * field >= modulus {
        field - modulus
    } else {
        field
    }
}

/// The unsigned 32-bit pattern of a signed 32-bit number.
pub open spec fn pattern32(value: int) -> nat
    recommends
        -0x8000_0000 <= value < 0x8000_0000,
{
    if value < 0 {
        (value + 0x1_0000_0000) as nat
    } else {
        value as nat
    }
}

/// The unsigned 64-bit pattern of a signed 64-bit number.
pub open spec fn pattern64(value: int) -> nat
    recommends
        -0x8000_0000_0000_0000 <= value < 0x8000_0000_0000_0000,
{
    if value < 0 {
        (value + 0x1_0000_0000_0000_0000) as nat
    } else {
        value as nat
    }
}

/// A nine-bit field widened to 32 bits: bit 8 is copied into bits 9 to 31.
pub open spec fn sign_extend_9_to_32(value: u32) -> u32
    recommends
        value < 0x200,
{
    if value & 0x100 != 0 {
        value | 0xFFFF_FE00
    } else {
        value
    }
}

/// A 21-bit field widened to 32 bits: bit 20 is copied into bits 21 to 31.
pub open spec fn sign_extend_21_to_32(value: u32) -> u32
    recommends
        value < 0x20_0000,
{
    if value & 0x10_0000 != 0 {
        value | 0xFFE0_0000
    } else {
        value
    }
}

/// A seven-bit field widened to 64 bits: bit 6 is copied into bits 7 to 63.
pub open spec fn sign_extend_7_to_64(value: u64) -> u64
    recommends
        value < 0x80,
{
    if value & 0x40 != 0 {
        value | 0xFFFF_FFFF_FFFF_FF80
    } else {
        value
    }
}

/// A 33-bit field widened to 64 bits: bit 32 is copied into bits 33 to 63.
pub open spec fn sign_extend_33_to_64(value: u64) -> u64
    recommends
        value < 0x2_0000_0000,
{
    if value & 0x1_0000_0000 != 0 {
        value | 0xFFFF_FFFE_0000_0000
    } else {
        value
    }
}

/// Reads a little-endian word from the front of `chunk` with `byteorder`'s
/// `ReadBytesExt::read_u32::<LittleEndian>` on the slice as reader. That
/// method fills a four-byte buffer with `read_exact` and hands it to
/// `u32::from_le_bytes`; on a slice `read_exact` fails exactly when fewer
/// bytes are left than asked for. The contract claims both: the word of the
/// first four bytes when there are four, and nothing when there are not.
#[verifier::external_body]
pub(crate) fn read_word(chunk: &[u8]) -> (word: Option<u32>)
    ensures
        chunk@.len() >= 4 ==> word == Some(le_word(chunk@)),
        chunk@.len() < 4 ==> word is None,
{
    let mut reader = chunk;
    reader.read_u32::<LittleEndian>().ok()
}

/// Widens a nine-bit field with `register_bits`' `sign_extend`, from
/// `Reg32Bits<9>` to `Reg32Bits<32>`. A `Reg32Bits<9>` is only to be had
/// from a full register through `take_low`, which masks with nine ones and
/// so leaves a value below 2^9 as it is. `sign_extend` sets every bit above
/// the field when the field's top bit is set and adds nothing otherwise.
/// The contract claims exactly that.
#[verifier::external_body]
pub(crate) fn extend_9_to_32(value: u32) -> (wide: u32)
    requires
        value < 0x200,
    ensures
        wide == sign_extend_9_to_32(value),
{
    let field: Reg32Bits<9> = Reg32Bits::new(value).take_low();
    let wide: Reg32Bits<32> = field.sign_extend();
    u32::from(wide)
}

/// Widens a 21-bit field with `register_bits`' `sign_extend`, from
/// `Reg32Bits<21>` to `Reg32Bits<32>`; the field is typed by `take_low`,
/// which leaves a value below 2^21 as it is. The contract claims that bits
/// 21 to 31 of the result equal bit 20 and that the field is kept.
#[verifier::external_body]
pub(crate) fn extend_21_to_32(value: u32) -> (wide: u32)
    requires
        value < 0x20_0000,
    ensures
        wide == sign_extend_21_to_32(value),
{
    let field: Reg32Bits<21> = Reg32Bits::new(value).take_low();
    let wide: Reg32Bits<32> = field.sign_extend();
    u32::from(wide)
}

/// Widens a seven-bit field with `register_bits`' `sign_extend`, from
/// `Reg64Bits<7>` to `Reg64Bits<64>`; the field is typed by `take_low`,
/// which leaves a value below 2^7 as it is. The contract claims that bits 7
/// to 63 of the result equal bit 6 and that the field is kept.
#[verifier::external_body]
pub(crate) fn extend_7_to_64(value: u64) -> (wide: u64)
    requires
        value < 0x80,
    ensures
        wide == sign_extend_7_to_64(value),
{
    let field: Reg64Bits<7> = Reg64Bits::new(value).take_low();
    let wide: Reg64Bits<64> = field.sign_extend();
    u64::from(wide)
}

/// Widens a 33-bit field with `register_bits`' `sign_extend`, from
/// `Reg64Bits<33>` to `Reg64Bits<64>`; the field is typed by `take_low`,
/// which leaves a value below 2^33 as it is. The contract claims that bits
/// 33 to 63 of the result equal bit 32 and that the field is kept.
#[verifier::external_body]
pub(crate) fn extend_33_to_64(value: u64) -> (wide: u64)
    requires
        value < 0x2_0000_0000,
    ensures
        wide == sign_extend_33_to_64(value),
{
    let field: Reg64Bits<33> = Reg64Bits::new(value).take_low();
    let wide: Reg64Bits<64> = field.sign_extend();
    u64::from(wide)
}

/// The signed number of a nine-bit two's complement field.
pub fn signed_9(field: u32) -> (value: i32)
    requires
        field < 0x200,
    ensures
        value == signed_value(field as int, 0x200),
{
    let wide = extend_9_to_32(field);
    assert(wide as i32 == (if field >= 0x100 {
        field - 0x200
    } else {
        field as int
    })) by (bit_vector)
        requires
            field < 0x200,
            wide == sign_extend_9_to_32(field),
    ;
    wide as i32
}

/// The 32-bit pattern of a signed number, as an unsigned one.
pub fn bit_pattern32(value: i32) -> (pattern: u32)
    ensures
        pattern == pattern32(value as int),
{
    let pattern = value as u32;
    assert(pattern == (if value < 0 {
        value + 0x1_0000_0000
    } else {
        value as int
    })) by (bit_vector)
        requires
            pattern == value as u32,
    ;
    pattern
}

} // verus!
