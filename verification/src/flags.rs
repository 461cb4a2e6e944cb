//! The flags register: four meaningful bits in the high nibble, the low
//! nibble always zero.

use vstd::prelude::*;

verus! {

/// Set when the result of the last arithmetic operation was zero.
pub const ZERO_FLAG: u8 = 0x80;

/// Set when the last operation was a subtraction.
pub const SUBTRACT_FLAG: u8 = 0x40;

/// Set on a carry out of bit 3.
pub const HALF_CARRY_FLAG: u8 = 0x20;

/// Set on a carry or borrow out of bit 7.
pub const CARRY_FLAG: u8 = 0x10;

/// The flags byte in which exactly the chosen bits are set.
pub open spec fn flag_bits(zero: bool, subtract: bool, half_carry: bool, carry: bool) -> u8 {
    ((if zero { 0x80int } else { 0int })
        + (if subtract { 0x40int } else { 0int })
        + (if half_carry { 0x20int } else { 0int })
        + (if carry { 0x10int } else { 0int })) as u8
}

/// Whether the bit `mask` is set in the flags byte `f`.
pub open spec fn has_flag(f: u8, mask: u8) -> bool {
    f & mask != 0
}

/// Reading a flags byte bit by bit gives back the four choices it was built
/// from, and its low nibble is zero.
pub proof fn lemma_flag_bits(zero: bool, subtract: bool, half_carry: bool, carry: bool)
    ensures
        has_flag(flag_bits(zero, subtract, half_carry, carry), ZERO_FLAG) == zero,
        has_flag(flag_bits(zero, subtract, half_carry, carry), SUBTRACT_FLAG) == subtract,
        has_flag(flag_bits(zero, subtract, half_carry, carry), HALF_CARRY_FLAG) == half_carry,
        has_flag(flag_bits(zero, subtract, half_carry, carry), CARRY_FLAG) == carry,
        flag_bits(zero, subtract, half_carry, carry) & 0x0F == 0,
{
    let f: u8 = flag_bits(zero, subtract, half_carry, carry);
    let z: u8 = if zero { 0x80 } else { 0 };
    let n: u8 = if subtract { 0x40 } else { 0 };
    let h: u8 = if half_carry { 0x20 } else { 0 };
    let c: u8 = if carry { 0x10 } else { 0 };
    assert(f == z + n + h + c);
    assert((f & 0x80 != 0) == (z == 0x80) && (f & 0x40 != 0) == (n == 0x40) && (f & 0x20 != 0) == (
    h == 0x20) && (f & 0x10 != 0) == (c == 0x10) && f & 0x0F == 0) by (bit_vector)
        requires
            f == z + n + h + c,
            z == 0x80 || z == 0,
            n == 0x40 || n == 0,
            h == 0x20 || h == 0,
            c == 0x10 || c == 0,
    ;
}

} // verus!
