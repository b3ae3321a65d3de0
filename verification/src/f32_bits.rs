//! Facts about `f32` values stated over their IEEE-754 bit patterns.
//!
//! The crate carries every `f32` of the configuration, the templates and the broker's
//! answers as its bit pattern; the tests made on those values are stated here exactly,
//! as properties of the pattern.
use vstd::prelude::*;

verus! {

/// The biased exponent field of an `f32` bit pattern.
pub open spec fn f32_exponent(bits: u32) -> int {
    (bits as int / 0x80_0000) % 0x100
}

/// `f32::is_finite`: the exponent field is not all ones (neither infinite nor NaN).
pub open spec fn f32_is_finite(bits: u32) -> bool {
    f32_exponent(bits) != 0xFF
}

/// `f32::is_nan`: all-ones exponent with a non-zero mantissa.
pub open spec fn f32_is_nan(bits: u32) -> bool {
    f32_exponent(bits) == 0xFF && bits as int % 0x80_0000 != 0
}

/// A key whose integer order is the order of the non-NaN `f32` values: the magnitude
/// bits, negated for negative values (so both zeros have key 0).
pub open spec fn f32_order_key(bits: u32) -> int {
    if bits < 0x8000_0000 {
        bits as int
    } else {
        -(bits as int - 0x8000_0000)
    }
}

/// `b > a` on the `f32` values of two bit patterns (false when either is NaN).
pub open spec fn f32_gt(b: u32, a: u32) -> bool {
    !f32_is_nan(a) && !f32_is_nan(b) && f32_order_key(b) > f32_order_key(a)
}

/// Whether the `f32` of pattern `bits` is finite.
pub(crate) fn f32_bits_is_finite(bits: u32) -> (r: bool)
    ensures
        r == f32_is_finite(bits),
{
    (bits / 0x80_0000) % 0x100 != 0xFF
}

/// Whether the `f32` of pattern `bits` is NaN.
pub(crate) fn f32_bits_is_nan(bits: u32) -> (r: bool)
    ensures
        r == f32_is_nan(bits),
{
    (bits / 0x80_0000) % 0x100 == 0xFF && bits % 0x80_0000 != 0
}

/// `b > a` on the `f32` values of two bit patterns.
pub fn f32_bits_gt(b: u32, a: u32) -> (r: bool)
    ensures
        r == f32_gt(b, a),
{
    if f32_bits_is_nan(a) || f32_bits_is_nan(b) {
        return false;
    }
    let kb: i64 = if b < 0x8000_0000 {
        b as i64
    } else {
        -((b - 0x8000_0000) as i64)
    };
    let ka: i64 = if a < 0x8000_0000 {
        a as i64
    } else {
        -((a - 0x8000_0000) as i64)
    };
    kb > ka
}

} // verus!
