//! Scalar integer types: one slot for each width and signedness, each filled
//! with a literal at the edge of what the slot can hold, and four more 8-bit
//! slots filled through the other literal notations.

use vstd::arithmetic::power2::{lemma2_to64, lemma2_to64_rest, lemma_pow2_adds, pow2};
use vstd::prelude::*;

verus! {

/// The greatest value of an unsigned slot that is `bits` wide.
pub open spec fn unsigned_greatest(bits: nat) -> int {
    pow2(bits) - 1
}

/// The greatest value of a signed, two's complement slot that is `bits` wide.
pub open spec fn signed_greatest(bits: nat) -> int
    recommends
        bits >= 1,
{
    pow2((bits - 1) as nat) - 1
}

/// The least value of a signed, two's complement slot that is `bits` wide.
pub open spec fn signed_least(bits: nat) -> int
    recommends
        bits >= 1,
{
    -pow2((bits - 1) as nat)
}

/// Whether `value` can be stored in an unsigned slot that is `bits` wide.
pub open spec fn fits_unsigned(value: int, bits: nat) -> bool {
    0 <= value <= unsigned_greatest(bits)
}

/// Whether `value` can be stored in a signed slot that is `bits` wide.
pub open spec fn fits_signed(value: int, bits: nat) -> bool
    recommends
        bits >= 1,
{
    signed_least(bits) <= value <= signed_greatest(bits)
}

/// What the slots of [`scalar_types`] hold once every literal is stored.
#[derive(Clone, Copy, Debug, PartialEq, Eq)]
pub struct ScalarTypes {
    pub sint8: i8,
    pub uint8: u8,
    pub sint16: i16,
    pub uint16: u16,
    pub sint32: i32,
    pub uint32: u32,
    pub sint64: i64,
    pub uint64: u64,
    pub sint128: i128,
    pub uint128: u128,
    /// Pointer-sized, signed: as wide as the machine's addresses. Filled at
    /// the upper edge of its type.
    pub sarch: isize,
    /// Pointer-sized, unsigned. Filled at the lower edge of its type.
    pub uarch: usize,
    /// Filled from a hexadecimal literal.
    pub hex: u8,
    /// Filled from an octal literal.
    pub octal: u8,
    /// Filled from a binary literal.
    pub binary: u8,
    /// Filled with the code of one ASCII character, which only an 8-bit
    /// unsigned slot takes.
    pub byte: u8,
}

/// Stores one literal in a slot of each integer type and hands the slots back.
///
/// The fixed-width slots hold the greatest value of their type. Of the two
/// pointer-sized ones the signed slot holds the greatest `isize`, whatever the
/// machine's width, and the unsigned slot holds zero, the least `usize`. The
/// last four hold what the hexadecimal, octal and binary literals denote and
/// the code of the character `A`.
pub fn scalar_types() -> (slots: ScalarTypes)
    ensures
        slots.sint8 == i8::MAX,
        slots.uint8 == u8::MAX,
        slots.sint16 == i16::MAX,
        slots.uint16 == u16::MAX,
        slots.sint32 == i32::MAX,
        slots.uint32 == u32::MAX,
        slots.sint64 == i64::MAX,
        slots.uint64 == u64::MAX,
        slots.sint128 == i128::MAX,
        slots.uint128 == u128::MAX,
        slots.sarch == isize::MAX,
        slots.uarch == usize::MIN,
        slots.uarch == 0,
        slots.hex == 15 * 16 + 15,
        slots.octal == 7 * 8 + 7,
        slots.binary == 128 + 64 + 32 + 16,
        slots.byte == 65,
{
    let sint8: i8 = 127;
    // `256` is refused by the compiler here: it is out of range for `u8`.
    let uint8: u8 = 255;
    // Underscores in a literal only help the reader.
    let sint16: i16 = 32_767;
    let uint16: u16 = 65_535;
    let sint32: i32 = 2_147_483_647;
    let uint32: u32 = 4294967295;
    let sint64: i64 = 9223372036854775807;
    let uint64: u64 = 18446744073709551615;
    let sint128: i128 = 170141183460469231731687303715884105727;
    let uint128: u128 = 340282366920938463463374607431768211455;
    // No literal is the greatest `isize` on every machine, so the type's own
    // constant stands for it.
    let sarch: isize = isize::MAX;
    let uarch: usize = 0;
    let hex: u8 = 0xff;
    let octal: u8 = 0o77;
    let binary: u8 = 0b1111_0000;
    let byte: u8 = 'A' as u8;
    ScalarTypes {
        sint8,
        uint8,
        sint16,
        uint16,
        sint32,
        uint32,
        sint64,
        uint64,
        sint128,
        uint128,
        sarch,
        uarch,
        hex,
        octal,
        binary,
        byte,
    }
}

/// An unsigned slot of 8, 16, 32, 64 or 128 bits holds exactly the values from
/// zero to its type's maximum, which is one less than two to the width.
///
/// For the 8-bit slot this puts the edge between 255, the last value that can
/// be stored, and 256, the first that cannot.
pub proof fn lemma_unsigned_slots(value: int)
    ensures
        fits_unsigned(value, 8) <==> u8::MIN <= value <= u8::MAX,
        fits_unsigned(value, 16) <==> u16::MIN <= value <= u16::MAX,
        fits_unsigned(value, 32) <==> u32::MIN <= value <= u32::MAX,
        fits_unsigned(value, 64) <==> u64::MIN <= value <= u64::MAX,
        fits_unsigned(value, 128) <==> u128::MIN <= value <= u128::MAX,
        fits_unsigned(255, 8),
        !fits_unsigned(256, 8),
{
    lemma2_to64();
    lemma_pow2_adds(64, 64);
}

/// A signed slot of 8, 16, 32, 64 or 128 bits holds exactly the values from
/// its type's minimum to its maximum: from minus two to the power of the width
/// less one, up to one less than that power.
pub proof fn lemma_signed_slots(value: int)
    ensures
        fits_signed(value, 8) <==> i8::MIN <= value <= i8::MAX,
        fits_signed(value, 16) <==> i16::MIN <= value <= i16::MAX,
        fits_signed(value, 32) <==> i32::MIN <= value <= i32::MAX,
        fits_signed(value, 64) <==> i64::MIN <= value <= i64::MAX,
        fits_signed(value, 128) <==> i128::MIN <= value <= i128::MAX,
{
    lemma2_to64();
    lemma2_to64_rest();
    lemma_pow2_adds(64, 63);
}

} // verus!
