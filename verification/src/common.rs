//! Bit and bit-field arithmetic on 32-bit register values.

use vstd::prelude::*;

verus! {

/* Single bits */

pub const BIT_0: u32 = 0x0000_0001;
pub const BIT_1: u32 = 0x0000_0002;
pub const BIT_2: u32 = 0x0000_0004;
pub const BIT_3: u32 = 0x0000_0008;
pub const BIT_4: u32 = 0x0000_0010;
pub const BIT_5: u32 = 0x0000_0020;
pub const BIT_6: u32 = 0x0000_0040;
pub const BIT_7: u32 = 0x0000_0080;
pub const BIT_26: u32 = 0x0400_0000;
pub const BIT_27: u32 = 0x0800_0000;
pub const BIT_28: u32 = 0x1000_0000;
pub const BIT_30: u32 = 0x4000_0000;
pub const BIT_31: u32 = 0x8000_0000;

/* Masks of the low bits, by their number */

pub const MASK_2_BIT: u32 = 0x0000_0003;
pub const MASK_3_BIT: u32 = 0x0000_0007;
pub const MASK_4_BIT: u32 = 0x0000_000F;
pub const MASK_8_BIT: u32 = 0x0000_00FF;
pub const MASK_9_BIT: u32 = 0x0000_01FF;
pub const MASK_11_BIT: u32 = 0x0000_07FF;
pub const MASK_29_BIT: u32 = 0x1FFF_FFFF;

/// Whether any of the bits of `bit` is set in `value`.
pub open spec fn bit_is_set(value: u32, bit: u32) -> bool {
    value & bit != 0
}

/// `value` with the bits of `bit` set.
pub open spec fn with_bit_set(value: u32, bit: u32) -> u32 {
    value | bit
}

/// `value` with the bits of `bit` cleared.
pub open spec fn with_bit_clear(value: u32, bit: u32) -> u32 {
    value & !bit
}

/// `value` with the bits of `bit` set if `on`, cleared if not.
pub open spec fn with_bit(value: u32, bit: u32, on: bool) -> u32 {
    if on {
        with_bit_set(value, bit)
    } else {
        with_bit_clear(value, bit)
    }
}

/// The field of width `mask` that starts at bit `offset` of `value`.
pub open spec fn field_of(value: u32, offset: u32, mask: u32) -> u32 {
    (value >> offset) & mask
}

/// `value` with the field of width `mask` at bit `offset` replaced by the low bits of `field`.
pub open spec fn with_field(value: u32, offset: u32, mask: u32, field: u32) -> u32 {
    (value & !(mask << offset)) | ((field & mask) << offset)
}

/// Tells whether `bit` is set in `value`.
pub fn test_bit(value: u32, bit: u32) -> (set: bool)
    ensures
        set == bit_is_set(value, bit),
{
    value & bit != 0
}

/// Takes the field of width `mask` at bit `offset` out of `value`.
pub fn extract_field(value: u32, offset: u32, mask: u32) -> (field: u32)
    requires
        offset < 32,
    ensures
        field == field_of(value, offset, mask),
{
    (value >> offset) & mask
}

/// Puts the low bits of `field` in the field of width `mask` at bit `offset` of `value`.
pub fn insert_field(value: u32, offset: u32, mask: u32, field: u32) -> (updated: u32)
    requires
        offset < 32,
    ensures
        updated == with_field(value, offset, mask, field),
{
    (value & !(mask << offset)) | ((field & mask) << offset)
}

} // verus!
