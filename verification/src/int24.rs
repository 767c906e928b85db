//! The 24-bit integer of the `avr_int24` crate, as this library uses it.
//!
//! A 24-bit value travels through the verified code as an `i32` within the
//! 24-bit range. Each function here hands its arguments to one operation of
//! `avr_int24::Int24` and states, without proof, what that operation returns.
//! A value enters through `Int24::from_i32`, which keeps a value of the
//! 24-bit range as it is, and leaves through `Int24::to_i32`, which extends
//! its sign.
//!
//! The statements follow the portable implementation of `avr_int24`; its AVR
//! assembly is meant to return the same values.

use crate::arith::{fits24, max24, min24, sat16, sat24, trunc_div, wrap24};
use avr_int24::Int24;
use vstd::prelude::*;

verus! {

/// `Int24::from_i16`: the sign-extended value, unchanged.
#[verifier::external_body]
pub(crate) fn from_i16(v: i16) -> (r: i32)
    ensures
        r == v,
{
    Int24::from_i16(v).to_i32()
}

/// `Int24::from_i32`: the value clamped into the 24-bit range.
#[verifier::external_body]
pub(crate) fn from_i32(v: i32) -> (r: i32)
    ensures
        r == sat24(v as int),
{
    Int24::from_i32(v).to_i32()
}

/// `Int24::to_i16`: the value clamped into the 16-bit range.
#[verifier::external_body]
pub(crate) fn to_i16(a: i32) -> (r: i16)
    requires
        fits24(a as int),
    ensures
        r == sat16(a as int),
{
    Int24::from_i32(a).to_i16()
}

/// `Int24::shl8`: the value times 256, of which the low 24 bits are kept.
#[verifier::external_body]
pub(crate) fn shl8(a: i32) -> (r: i32)
    requires
        fits24(a as int),
    ensures
        r == wrap24(a * 256),
{
    Int24::from_i32(a).shl8().to_i32()
}

/// `Int24::shr8`: the arithmetic right shift by eight bits, which is the
/// quotient by 256 rounded toward negative infinity.
#[verifier::external_body]
pub(crate) fn shr8(a: i32) -> (r: i32)
    requires
        fits24(a as int),
    ensures
        r == a as int / 256,
{
    Int24::from_i32(a).shr8().to_i32()
}

/// `Int24::div`: the quotient rounded toward zero and clamped into the 24-bit
/// range. With a zero divisor, the largest value for a dividend that is not
/// negative and the smallest for one that is.
#[verifier::external_body]
pub(crate) fn div(a: i32, b: i32) -> (r: i32)
    requires
        fits24(a as int),
        fits24(b as int),
    ensures
        b != 0 ==> r == sat24(trunc_div(a as int, b as int)),
        b == 0 && a >= 0 ==> r == max24(),
        b == 0 && a < 0 ==> r == min24(),
{
    Int24::from_i32(a).div(Int24::from_i32(b)).to_i32()
}

/// `Int24::const_div`: the quotient rounded toward zero and clamped into the
/// 24-bit range. It divides natively, so the divisor must not be zero.
#[verifier::external_body]
pub(crate) fn const_div(a: i32, b: i32) -> (r: i32)
    requires
        fits24(a as int),
        fits24(b as int),
        b != 0,
    ensures
        r == sat24(trunc_div(a as int, b as int)),
{
    Int24::from_i32(a).const_div(Int24::from_i32(b)).to_i32()
}

/// `Int24::shl8div`: the value times 256, kept in 32 bits, then the quotient
/// by the divisor, rounded toward zero and clamped into the 24-bit range. With
/// a zero divisor, the largest value for a dividend that is not negative and
/// the smallest for one that is.
#[verifier::external_body]
pub(crate) fn shl8div(a: i32, b: i32) -> (r: i32)
    requires
        fits24(a as int),
        fits24(b as int),
    ensures
        b != 0 ==> r == sat24(trunc_div(a * 256, b as int)),
        b == 0 && a >= 0 ==> r == max24(),
        b == 0 && a < 0 ==> r == min24(),
{
    Int24::from_i32(a).shl8div(Int24::from_i32(b)).to_i32()
}

/// `Int24::add`: the sum, clamped into the 24-bit range.
#[verifier::external_body]
pub(crate) fn add(a: i32, b: i32) -> (r: i32)
    requires
        fits24(a as int),
        fits24(b as int),
    ensures
        r == sat24(a + b),
{
    Int24::from_i32(a).add(Int24::from_i32(b)).to_i32()
}

/// `Int24::const_add`: the sum, clamped into the 24-bit range.
#[verifier::external_body]
pub(crate) fn const_add(a: i32, b: i32) -> (r: i32)
    requires
        fits24(a as int),
        fits24(b as int),
    ensures
        r == sat24(a + b),
{
    Int24::from_i32(a).const_add(Int24::from_i32(b)).to_i32()
}

/// `Int24::sub`: the difference, clamped into the 24-bit range.
#[verifier::external_body]
pub(crate) fn sub(a: i32, b: i32) -> (r: i32)
    requires
        fits24(a as int),
        fits24(b as int),
    ensures
        r == sat24(a - b),
{
    Int24::from_i32(a).sub(Int24::from_i32(b)).to_i32()
}

/// `Int24::const_sub`: the difference, clamped into the 24-bit range.
#[verifier::external_body]
pub(crate) fn const_sub(a: i32, b: i32) -> (r: i32)
    requires
        fits24(a as int),
        fits24(b as int),
    ensures
        r == sat24(a - b),
{
    Int24::from_i32(a).const_sub(Int24::from_i32(b)).to_i32()
}

/// `Int24::neg`: the negated value, clamped into the 24-bit range.
#[verifier::external_body]
pub(crate) fn neg(a: i32) -> (r: i32)
    requires
        fits24(a as int),
    ensures
        r == sat24(-a),
{
    Int24::from_i32(a).neg().to_i32()
}

/// `Int24::const_neg`: the negated value, clamped into the 24-bit range.
#[verifier::external_body]
pub(crate) fn const_neg(a: i32) -> (r: i32)
    requires
        fits24(a as int),
    ensures
        r == sat24(-a),
{
    Int24::from_i32(a).const_neg().to_i32()
}

/// `Int24::abs`: the value itself where it is not negative, else the negated
/// value clamped into the 24-bit range.
#[verifier::external_body]
pub(crate) fn abs(a: i32) -> (r: i32)
    requires
        fits24(a as int),
    ensures
        a >= 0 ==> r == a,
        a < 0 ==> r == sat24(-a),
{
    Int24::from_i32(a).abs().to_i32()
}

/// `Int24::const_abs`: the value itself where it is not negative, else the
/// negated value clamped into the 24-bit range.
#[verifier::external_body]
pub(crate) fn const_abs(a: i32) -> (r: i32)
    requires
        fits24(a as int),
    ensures
        a >= 0 ==> r == a,
        a < 0 ==> r == sat24(-a),
{
    Int24::from_i32(a).const_abs().to_i32()
}

} // verus!
