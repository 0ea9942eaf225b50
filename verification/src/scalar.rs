//! IEEE-754 single-precision numbers held by their bit patterns.

use vstd::prelude::*;

verus! {

/// Three single-precision numbers, each held by its bit pattern.
#[derive(Clone, Copy, PartialEq, Eq, Structural, Debug)]
pub struct Vec3Bits {
    pub x: u32,
    pub y: u32,
    pub z: u32,
}

/// Two single-precision numbers, each held by its bit pattern.
#[derive(Clone, Copy, PartialEq, Eq, Structural, Debug)]
pub struct Vec2Bits {
    pub x: u32,
    pub y: u32,
}

/// Whether `bits` is the pattern of a NaN: an exponent of all ones over a
/// fraction that is not zero.
pub open spec fn is_nan(bits: u32) -> bool {
    bits & 0x7fff_ffff > 0x7f80_0000
}

/// The position of the number with pattern `bits` on the number line of
/// single-precision numbers: its pattern without the sign bit, counted
/// downwards from zero where the sign bit is set. Of two numbers that are not
/// NaN, the smaller has the smaller position; zero and negative zero share
/// one.
pub open spec fn order_key(bits: u32) -> int {
    if bits & 0x8000_0000 != 0 {
        -((bits & 0x7fff_ffff) as int)
    } else {
        (bits & 0x7fff_ffff) as int
    }
}

/// Whether the number with pattern `a` is less than the one with pattern
/// `b`. A NaN is not less than anything, nor anything less than it.
pub open spec fn is_less(a: u32, b: u32) -> bool {
    !is_nan(a) && !is_nan(b) && order_key(a) < order_key(b)
}

/// Whether the number with pattern `a` is less than the one with pattern `b`.
pub fn less_than(a: u32, b: u32) -> (less: bool)
    ensures
        less == is_less(a, b),
{
    let a_magnitude: u32 = a & 0x7fff_ffff;
    let b_magnitude: u32 = b & 0x7fff_ffff;
    if a_magnitude > 0x7f80_0000 || b_magnitude > 0x7f80_0000 {
        return false;
    }
    let a_negative: bool = a & 0x8000_0000 != 0;
    let b_negative: bool = b & 0x8000_0000 != 0;
    if a_negative {
        if b_negative {
            a_magnitude > b_magnitude
        } else {
            a_magnitude != 0 || b_magnitude != 0
        }
    } else {
        if b_negative {
            false
        } else {
            a_magnitude < b_magnitude
        }
    }
}

} // verus!
