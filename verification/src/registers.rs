//! Bit fields of 32-bit peripheral registers, on plain register values.
//!
//! A field is given by the mask of its width, `(1 << width) - 1`, and by the
//! position of its lowest bit. Nothing here reads or writes a device: the
//! functions compute on the value that was read and return the value to write.

use vstd::prelude::*;

verus! {

/// The bits that a field occupies in its register.
pub open spec fn field_bits(mask: u32, shift: u32) -> u32 {
    mask << shift
}

/// The register value with the field replaced by `value`, cut to the field's
/// width, and every bit outside the field as it was.
pub open spec fn field_modify(reg: u32, mask: u32, shift: u32, value: u32) -> u32 {
    (reg & !(mask << shift)) | ((value & mask) << shift)
}

/// The value held in the field.
pub open spec fn field_read(reg: u32, mask: u32, shift: u32) -> u32 {
    (reg & (mask << shift)) >> shift
}

/// Whether any bit of the field is one.
pub open spec fn field_is_set(reg: u32, mask: u32, shift: u32) -> bool {
    reg & (mask << shift) != 0
}

/// Replaces one field of a register value.
///
/// Every bit outside the field stays as it was. A field that lies inside
/// the register reads back as the value written, cut to the field's width.
pub fn modify(reg: u32, mask: u32, shift: u32, value: u32) -> (out: u32)
    requires
        shift < 32,
    ensures
        out == field_modify(reg, mask, shift, value),
        out & !field_bits(mask, shift) == reg & !field_bits(mask, shift),
        field_bits(mask, shift) >> shift == mask ==> field_read(out, mask, shift) == value & mask,
{
    proof {
        lemma_modify_keeps_rest(reg, mask, shift, value);
        if field_bits(mask, shift) >> shift == mask {
            lemma_read_after_modify(reg, mask, shift, value);
        }
    }
    (reg & !(mask << shift)) | ((value & mask) << shift)
}

/// Reads one field of a register value.
pub fn read(reg: u32, mask: u32, shift: u32) -> (value: u32)
    requires
        shift < 32,
    ensures
        value == field_read(reg, mask, shift),
{
    (reg & (mask << shift)) >> shift
}

/// Tests whether one field of a register value holds anything but zero.
pub fn is_set(reg: u32, mask: u32, shift: u32) -> (set: bool)
    requires
        shift < 32,
    ensures
        set == field_is_set(reg, mask, shift),
{
    reg & (mask << shift) != 0
}

/// A field that was just written reads back as the value written, cut to the
/// field's width, provided the whole field lies inside the register.
pub proof fn lemma_read_after_modify(reg: u32, mask: u32, shift: u32, value: u32)
    requires
        shift < 32,
        (mask << shift) >> shift == mask,
    ensures
        field_read(field_modify(reg, mask, shift, value), mask, shift) == value & mask,
{
    assert(((((reg & !(mask << shift)) | ((value & mask) << shift)) & (mask << shift)) >> shift)
        == value & mask) by (bit_vector)
        requires
            shift < 32,
            (mask << shift) >> shift == mask,
    ;
}

/// Writing a field leaves every bit outside it untouched.
pub proof fn lemma_modify_keeps_rest(reg: u32, mask: u32, shift: u32, value: u32)
    requires
        shift < 32,
    ensures
        field_modify(reg, mask, shift, value) & !field_bits(mask, shift) == reg & !field_bits(
            mask,
            shift,
        ),
{
    assert(((reg & !(mask << shift)) | ((value & mask) << shift)) & !(mask << shift) == reg & !(mask
        << shift)) by (bit_vector)
        requires
            shift < 32,
    ;
}

/// Writing one field does not change what a field that shares no bit with it
/// holds.
pub proof fn lemma_modify_keeps_other(
    reg: u32,
    mask: u32,
    shift: u32,
    value: u32,
    other_mask: u32,
    other_shift: u32,
)
    requires
        shift < 32,
        other_shift < 32,
        field_bits(mask, shift) & field_bits(other_mask, other_shift) == 0,
    ensures
        field_read(field_modify(reg, mask, shift, value), other_mask, other_shift) == field_read(
            reg,
            other_mask,
            other_shift,
        ),
        field_is_set(field_modify(reg, mask, shift, value), other_mask, other_shift)
            == field_is_set(reg, other_mask, other_shift),
{
    assert(((reg & !(mask << shift)) | ((value & mask) << shift)) & (other_mask << other_shift)
        == reg & (other_mask << other_shift)) by (bit_vector)
        requires
            shift < 32,
            other_shift < 32,
            (mask << shift) & (other_mask << other_shift) == 0,
    ;
}

} // verus!
