//! The mathematics of the formats, over unbounded integers.
//!
//! A fixed-point value is modelled by its stored scaled integer: the value
//! `v` stands for the rational number `v / 256`.

use vstd::prelude::*;

verus! {

/// Length of the fractional part of every format, in bits.
pub const SHIFT: usize = 8;

/// The scaled integer that stands for one: two to the power [`SHIFT`].
pub open spec fn scale() -> int {
    0x100
}

/// Smallest stored value of the 16-bit format.
pub open spec fn min16() -> int {
    -0x8000
}

/// Largest stored value of the 16-bit format.
pub open spec fn max16() -> int {
    0x7FFF
}

/// Smallest stored value of the 24-bit format.
pub open spec fn min24() -> int {
    -0x80_0000
}

/// Largest stored value of the 24-bit format.
pub open spec fn max24() -> int {
    0x7F_FFFF
}

/// `x` is a signed 16-bit value.
pub open spec fn fits16(x: int) -> bool {
    min16() <= x <= max16()
}

/// `x` is a signed 24-bit value.
pub open spec fn fits24(x: int) -> bool {
    min24() <= x <= max24()
}

/// `x` clamped into `lo ..= hi`.
pub open spec fn saturate(x: int, lo: int, hi: int) -> int {
    if x < lo {
        lo
    } else if x > hi {
        hi
    } else {
        x
    }
}

/// `x` clamped into the signed 16-bit range.
pub open spec fn sat16(x: int) -> int {
    saturate(x, min16(), max16())
}

/// `x` clamped into the signed 24-bit range.
pub open spec fn sat24(x: int) -> int {
    saturate(x, min24(), max24())
}

/// The low 16 bits of `x`, read as a two's complement number.
pub open spec fn wrap16(x: int) -> int {
    (x + 0x8000) % 0x1_0000 - 0x8000
}

/// The low 24 bits of `x`, read as a two's complement number.
pub open spec fn wrap24(x: int) -> int {
    (x + 0x80_0000) % 0x100_0000 - 0x80_0000
}

/// The quotient of `a` by `b`, rounded toward zero.
pub open spec fn trunc_div(a: int, b: int) -> int
    recommends
        b != 0,
{
    if a >= 0 && b > 0 {
        a / b
    } else if a >= 0 {
        -(a / (-b))
    } else if b > 0 {
        -((-a) / b)
    } else {
        (-a) / (-b)
    }
}

/// The fixed-point quotient of the stored values `a` and `b` in a format
/// whose stored values span `lo ..= hi`.
///
/// The dividend is scaled up before the division, so that the quotient is
/// again a stored value. A zero divisor gives the bound on the side of the
/// dividend's sign, zero counting as positive.
pub open spec fn quotient(a: int, b: int, lo: int, hi: int) -> int {
    if b == 0 {
        if a >= 0 {
            hi
        } else {
            lo
        }
    } else {
        saturate(trunc_div(a * scale(), b), lo, hi)
    }
}

/// The fixed-point product of two stored 16-bit values: the exact product,
/// its low [`SHIFT`] bits dropped, narrowed to 16 bits without saturation.
pub open spec fn product16(a: int, b: int) -> int {
    wrap16((a * b) / scale())
}

/// The saturating negation in `lo ..= hi`.
pub open spec fn negation(a: int, lo: int, hi: int) -> int {
    saturate(-a, lo, hi)
}

/// The saturating absolute value in `lo ..= hi`.
pub open spec fn magnitude(a: int, lo: int, hi: int) -> int {
    if a >= 0 {
        a
    } else {
        negation(a, lo, hi)
    }
}

/// The stored value of the whole number `n`.
pub open spec fn of_int(n: int) -> int {
    n * scale()
}

/// The whole part of the stored value `v`, rounded toward negative infinity.
pub open spec fn int_part(v: int) -> int {
    v / scale()
}

} // verus!
