//! The eight-bit arithmetic of the register instructions that set the
//! flag: each gives the byte that goes to the destination register and
//! whether the flag is set.

use vstd::prelude::*;

verus! {

/// Adds two bytes. The sum wraps at 256; the flag says that it did.
pub fn add_with_carry(a: u8, b: u8) -> (out: (u8, bool))
    ensures
        out.0 == (a + b) % 256,
        out.1 == (a + b > 255),
{
    (a.wrapping_add(b), a as u16 + b as u16 > 255)
}

/// Subtracts `b` from `a`. The difference wraps at 256; the flag says that
/// nothing was borrowed, that is that `a` is at least `b`.
pub fn sub_with_borrow(a: u8, b: u8) -> (out: (u8, bool))
    ensures
        out.0 == (a - b) % 256,
        out.1 == (a >= b),
{
    (a.wrapping_sub(b), a >= b)
}

/// Shifts a byte right by one bit. The flag is the bit shifted out.
pub fn shift_right(value: u8) -> (out: (u8, bool))
    ensures
        out.0 == value / 2,
        out.1 == (value % 2 == 1),
{
    assert(value & 1 == value % 2 && value >> 1 == value / 2) by (bit_vector);
    (value >> 1, value & 1 == 1)
}

/// Shifts a byte left by one bit. The flag is the bit shifted out.
pub fn shift_left(value: u8) -> (out: (u8, bool))
    ensures
        out.0 == (value * 2) % 256,
        out.1 == (value >= 128),
{
    assert((value >> 7 == 1) == (value >= 128) && value << 1 == (value * 2) % 256)
        by (bit_vector);
    (value << 1, value >> 7 == 1)
}

} // verus!
