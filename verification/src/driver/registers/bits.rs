//! Fields of bits inside a register byte.
//!
//! A field is named by the positions of its highest and lowest bit, `msb` and
//! `lsb`, bit 0 being the lowest of the byte.

use bitfield::Bit;
use bitfield::BitMut;
use bitfield::BitRange;
use bitfield::BitRangeMut;
use vstd::prelude::*;

verus! {

/// The byte that has exactly the bits `lsb..=msb` set: those from `lsb` up
/// without those above `msb`.
pub open spec fn field_mask(msb: u8, lsb: u8) -> u8 {
    (0xffu8 << lsb) & !(0xfeu8 << msb)
}

/// The bits `lsb..=msb` of `raw`, moved down to bit 0.
pub open spec fn get_bits(raw: u8, msb: u8, lsb: u8) -> u8 {
    (raw & field_mask(msb, lsb)) >> lsb
}

/// `raw` with the bits `lsb..=msb` taken from the low bits of `value`.
pub open spec fn set_bits(raw: u8, msb: u8, lsb: u8, value: u8) -> u8 {
    (raw & !field_mask(msb, lsb)) | ((value << lsb) & field_mask(msb, lsb))
}

/// Whether bit `bit` of `raw` is set.
pub open spec fn get_bit(raw: u8, bit: u8) -> bool {
    get_bits(raw, bit, bit) != 0
}

/// `raw` with bit `bit` set or cleared.
pub open spec fn set_bit(raw: u8, bit: u8, value: bool) -> u8 {
    set_bits(raw, bit, bit, if value { 1u8 } else { 0u8 })
}

/// The largest number that the field `lsb..=msb` holds.
pub open spec fn field_max(msb: u8, lsb: u8) -> u8 {
    field_mask(msb, lsb) >> lsb
}

/// A bit reads as the byte shifted down to it, modulo two, and the field
/// that spans the byte reads as the byte.
pub proof fn lemma_get_bit_is_shift(raw: u8, bit: u8)
    by (bit_vector)
    requires
        bit < 8,
    ensures
        get_bit(raw, bit) == ((raw >> bit) & 1 == 1),
        get_bits(raw, 7, 0) == raw,
        get_bits(raw, bit, bit) <= 1,
{
}

/// What was written to a field is read from it, as far as it fits the field.
pub proof fn lemma_get_after_set(raw: u8, msb: u8, lsb: u8, value: u8)
    by (bit_vector)
    requires
        lsb <= msb < 8,
    ensures
        get_bits(set_bits(raw, msb, lsb, value), msb, lsb) == value & field_max(msb, lsb),
        value <= field_max(msb, lsb) ==> get_bits(set_bits(raw, msb, lsb, value), msb, lsb)
            == value,
{
}

/// Writing a field leaves every bit outside it as it was.
pub proof fn lemma_set_keeps_other_bits(raw: u8, msb: u8, lsb: u8, value: u8, bit: u8)
    by (bit_vector)
    requires
        lsb <= msb < 8,
        bit < 8,
        bit < lsb || bit > msb,
    ensures
        get_bit(set_bits(raw, msb, lsb, value), bit) == get_bit(raw, bit),
{
}

/// A bit that was set or cleared reads as it was written, and the other bits
/// read as before.
pub proof fn lemma_get_bit_after_set_bit(raw: u8, bit: u8, value: bool, other: u8)
    by (bit_vector)
    requires
        bit < 8,
        other < 8,
    ensures
        get_bit(set_bit(raw, bit, value), bit) == value,
        other != bit ==> get_bit(set_bit(raw, bit, value), other) == get_bit(raw, other),
{
}

/// Reads a field of a byte.
///
/// Calls `bit_range` of `bitfield::BitRange<u8>` on a `u8`, which shifts the
/// byte left until bit `msb` is the highest and then right until bit `lsb` is
/// the lowest: the result is the field as a number. Positions outside the byte
/// and `msb < lsb` make the shifts overflow, so they are left out.
#[verifier::external_body]
pub(crate) fn bit_range(raw: u8, msb: u8, lsb: u8) -> (r: u8)
    requires
        lsb <= msb < 8,
    ensures
        r == get_bits(raw, msb, lsb),
{
    BitRange::<u8>::bit_range(&raw, msb as usize, lsb as usize)
}

/// Writes a field of a byte.
///
/// Calls `set_bit_range` of `bitfield::BitRangeMut<u8>` on a `u8`, which
/// clears the bits `lsb..=msb` and sets them from `value` shifted left by
/// `lsb`; what of `value` does not fit the field is dropped.
#[verifier::external_body]
pub(crate) fn set_bit_range(raw: u8, msb: u8, lsb: u8, value: u8) -> (r: u8)
    requires
        lsb <= msb < 8,
    ensures
        r == set_bits(raw, msb, lsb, value),
{
    let mut byte = raw;
    BitRangeMut::<u8>::set_bit_range(&mut byte, msb as usize, lsb as usize, value);
    byte
}

/// Reads one bit of a byte.
///
/// Calls `bit` of `bitfield::Bit` on a `u8`, which reads the one-bit field at
/// `position` and tells whether it is not zero.
#[verifier::external_body]
pub(crate) fn bit(raw: u8, position: u8) -> (r: bool)
    requires
        position < 8,
    ensures
        r == get_bit(raw, position),
{
    Bit::bit(&raw, position as usize)
}

/// Sets or clears one bit of a byte.
///
/// Calls `set_bit` of `bitfield::BitMut` on a `u8`, which writes 1 or 0 to
/// the one-bit field at `position`.
#[verifier::external_body]
pub(crate) fn put_bit(raw: u8, position: u8, value: bool) -> (r: u8)
    requires
        position < 8,
    ensures
        r == set_bit(raw, position, value),
{
    let mut byte = raw;
    BitMut::set_bit(&mut byte, position as usize, value);
    byte
}

} // verus!
