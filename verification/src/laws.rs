//! What holds of the formats' operations on every input.
//!
//! The first statements are over the functions of [`crate::arith`] in which
//! the operations' contracts are written. The others are about the
//! operations themselves: of every value that a call may return.

use crate::arith::{
    fits16, fits24, int_part, max16, max24, min16, min24, negation, of_int, quotient, saturate,
    scale, wrap16, wrap24, SHIFT,
};
use crate::q15p8::Q15p8;
use crate::q7p8::Q7p8;
use vstd::arithmetic::power2::{lemma2_to64, pow2};
use vstd::prelude::*;

verus! {

/// The scale of both formats is two to the power of the number of
/// fractional bits.
pub proof fn lemma_scale_is_power_of_shift()
    ensures
        scale() == pow2(SHIFT as nat),
{
    lemma2_to64();
}

/// A whole number made into a stored value and read back is unchanged.
pub proof fn lemma_int_round_trip(n: int)
    ensures
        int_part(of_int(n)) == n,
{
}

/// The stored value of a whole number of the 16-bit format's integer range
/// fits the format, and likewise for the 24-bit format.
pub proof fn lemma_of_int_fits(n: int)
    ensures
        -0x80 <= n <= 0x7F ==> fits16(of_int(n)),
        -0x8000 <= n <= 0x7FFF ==> fits24(of_int(n)),
{
}

/// Adding a positive value to the upper bound gives the upper bound, and
/// subtracting one from the lower bound gives the lower bound.
pub proof fn lemma_saturation_boundary(positive: int, lo: int, hi: int)
    requires
        lo <= hi,
        positive > 0,
    ensures
        saturate(hi + positive, lo, hi) == hi,
        saturate(lo - positive, lo, hi) == lo,
{
}

/// Division by zero gives the upper bound for a dividend that is not
/// negative and the lower bound for one that is.
pub proof fn lemma_quotient_by_zero(x: int, lo: int, hi: int)
    ensures
        x >= 0 ==> quotient(x, 0, lo, hi) == hi,
        x < 0 ==> quotient(x, 0, lo, hi) == lo,
{
}

/// Every result of a saturating operation is a stored value of its format.
pub proof fn lemma_saturate_in_range(x: int, lo: int, hi: int)
    requires
        lo <= hi,
    ensures
        lo <= saturate(x, lo, hi) <= hi,
        lo <= x <= hi ==> saturate(x, lo, hi) == x,
{
}

/// Narrowing to 16 or 24 bits keeps a value that fits: the product of the
/// 16-bit format is exact wherever it is in range.
pub proof fn lemma_wrap_in_range(x: int)
    ensures
        fits16(x) ==> wrap16(x) == x,
        fits24(x) ==> wrap24(x) == x,
        fits16(wrap16(x)),
        fits24(wrap24(x)),
{
}

/// Negation is its own inverse on every value but the smallest.
pub proof fn lemma_negation_involution(a: int, lo: int, hi: int)
    requires
        lo == -hi - 1,
        lo < a <= hi,
    ensures
        negation(negation(a, lo, hi), lo, hi) == a,
{
}

/// A whole number made into a value of the 16-bit format and read back is
/// the number it was.
pub proof fn lemma_q7p8_int_round_trip(n: i8, value: Q7p8, back: i8)
    requires
        call_ensures(Q7p8::from_int, (n,), value),
        call_ensures(Q7p8::to_int, (value,), back),
    ensures
        back == n,
{
}

/// A whole number made into a value of the 24-bit format and read back is
/// the number it was.
pub proof fn lemma_q15p8_int_round_trip(n: i16, value: Q15p8, back: i16)
    requires
        call_ensures(Q15p8::from_int, (n,), value),
        call_ensures(Q15p8::to_int, (value,), back),
    ensures
        back == n,
{
}

/// A value of the 16-bit format, widened to the 24-bit format and narrowed
/// again, is the value it was.
pub proof fn lemma_widen_narrow_round_trip(q: Q7p8, wide: Q15p8, back: Q7p8)
    requires
        call_ensures(Q7p8::to_q15p8, (&q,), wide),
        call_ensures(Q15p8::to_q7p8, (&wide,), back),
    ensures
        wide@ == q@,
        back == q,
{
    q.lemma_view_fits();
    back.lemma_view_injective(q);
}

/// In the 16-bit format the largest value plus a positive one is the
/// largest, the smallest minus a positive one is the smallest, and the
/// negation and the absolute value of the smallest are the largest.
pub proof fn lemma_q7p8_saturation_boundary(
    largest: Q7p8,
    smallest: Q7p8,
    positive: Q7p8,
    sum: Q7p8,
    difference: Q7p8,
    negated: Q7p8,
    absolute: Q7p8,
)
    requires
        largest@ == max16(),
        smallest@ == min16(),
        positive@ > 0,
        call_ensures(Q7p8::add, (largest, positive), sum),
        call_ensures(Q7p8::sub, (smallest, positive), difference),
        call_ensures(Q7p8::neg, (smallest,), negated),
        call_ensures(Q7p8::abs, (smallest,), absolute),
    ensures
        sum == largest,
        difference == smallest,
        negated == largest,
        absolute == largest,
{
    sum.lemma_view_injective(largest);
    difference.lemma_view_injective(smallest);
    negated.lemma_view_injective(largest);
    absolute.lemma_view_injective(largest);
}

/// In the 24-bit format the largest value plus a positive one is the
/// largest, the smallest minus a positive one is the smallest, and the
/// negation and the absolute value of the smallest are the largest.
pub proof fn lemma_q15p8_saturation_boundary(
    largest: Q15p8,
    smallest: Q15p8,
    positive: Q15p8,
    sum: Q15p8,
    difference: Q15p8,
    negated: Q15p8,
    absolute: Q15p8,
)
    requires
        largest@ == max24(),
        smallest@ == min24(),
        positive@ > 0,
        call_ensures(Q15p8::add, (largest, positive), sum),
        call_ensures(Q15p8::sub, (smallest, positive), difference),
        call_ensures(Q15p8::neg, (smallest,), negated),
        call_ensures(Q15p8::abs, (smallest,), absolute),
    ensures
        sum == largest,
        difference == smallest,
        negated == largest,
        absolute == largest,
{
    sum.lemma_view_injective(largest);
    difference.lemma_view_injective(smallest);
    negated.lemma_view_injective(largest);
    absolute.lemma_view_injective(largest);
}

/// In the 16-bit format a division by zero returns the largest value for a
/// dividend that is not negative and the smallest for one that is.
pub proof fn lemma_q7p8_div_by_zero(x: Q7p8, zero: Q7p8, result: Q7p8)
    requires
        zero@ == 0,
        call_ensures(Q7p8::div, (x, zero), result),
    ensures
        x@ >= 0 ==> result@ == max16(),
        x@ < 0 ==> result@ == min16(),
{
}

/// In the 24-bit format a division by zero returns the largest value for a
/// dividend that is not negative and the smallest for one that is.
pub proof fn lemma_q15p8_div_by_zero(x: Q15p8, zero: Q15p8, result: Q15p8)
    requires
        zero@ == 0,
        call_ensures(Q15p8::div, (x, zero), result),
    ensures
        x@ >= 0 ==> result@ == max24(),
        x@ < 0 ==> result@ == min24(),
{
}

/// Two reference points with the same `x` give the left point's `y`,
/// whatever the query.
pub proof fn lemma_q7p8_lin_inter_degenerate(
    x: Q7p8,
    left: (Q7p8, Q7p8),
    right: (Q7p8, Q7p8),
    y: Q7p8,
)
    requires
        left.0 == right.0,
        call_ensures(Q7p8::lin_inter, (&x, &left, &right), y),
    ensures
        y == left.1,
{
    y.lemma_view_injective(left.1);
}

/// On every numerator and denominator, `from_fraction` and
/// `const_from_fraction` of the 16-bit format return the same value.
pub proof fn lemma_q7p8_fraction_variants_agree(
    numerator: i16,
    denominator: i16,
    runtime: Q7p8,
    constant: Q7p8,
)
    requires
        call_ensures(Q7p8::from_fraction, (numerator, denominator), runtime),
        call_ensures(Q7p8::const_from_fraction, (numerator, denominator), constant),
    ensures
        runtime == constant,
{
    runtime.lemma_view_injective(constant);
}

/// On every pair of operands, `mul` and `const_mul` of the 16-bit format
/// return the same value.
pub proof fn lemma_q7p8_mul_variants_agree(a: Q7p8, b: Q7p8, runtime: Q7p8, constant: Q7p8)
    requires
        call_ensures(Q7p8::mul, (a, b), runtime),
        call_ensures(Q7p8::const_mul, (a, b), constant),
    ensures
        runtime == constant,
{
    runtime.lemma_view_injective(constant);
}

/// On every pair of operands, `div` and `const_div` of the 16-bit format
/// return the same value.
pub proof fn lemma_q7p8_div_variants_agree(a: Q7p8, b: Q7p8, runtime: Q7p8, constant: Q7p8)
    requires
        call_ensures(Q7p8::div, (a, b), runtime),
        call_ensures(Q7p8::const_div, (a, b), constant),
    ensures
        runtime == constant,
{
    runtime.lemma_view_injective(constant);
}

/// On every numerator and denominator, `from_fraction` and
/// `const_from_fraction` of the 24-bit format return the same value.
pub proof fn lemma_q15p8_fraction_variants_agree(
    numerator: i16,
    denominator: i16,
    runtime: Q15p8,
    constant: Q15p8,
)
    requires
        call_ensures(Q15p8::from_fraction, (numerator, denominator), runtime),
        call_ensures(Q15p8::const_from_fraction, (numerator, denominator), constant),
    ensures
        runtime == constant,
{
    runtime.lemma_view_injective(constant);
}

/// On every pair of operands, `add` and `const_add` of the 24-bit format
/// return the same value.
pub proof fn lemma_q15p8_add_variants_agree(a: Q15p8, b: Q15p8, runtime: Q15p8, constant: Q15p8)
    requires
        call_ensures(Q15p8::add, (a, b), runtime),
        call_ensures(Q15p8::const_add, (a, b), constant),
    ensures
        runtime == constant,
{
    runtime.lemma_view_injective(constant);
}

/// On every pair of operands, `sub` and `const_sub` of the 24-bit format
/// return the same value.
pub proof fn lemma_q15p8_sub_variants_agree(a: Q15p8, b: Q15p8, runtime: Q15p8, constant: Q15p8)
    requires
        call_ensures(Q15p8::sub, (a, b), runtime),
        call_ensures(Q15p8::const_sub, (a, b), constant),
    ensures
        runtime == constant,
{
    runtime.lemma_view_injective(constant);
}

/// On every pair of operands, `div` and `const_div` of the 24-bit format
/// return the same value.
pub proof fn lemma_q15p8_div_variants_agree(a: Q15p8, b: Q15p8, runtime: Q15p8, constant: Q15p8)
    requires
        call_ensures(Q15p8::div, (a, b), runtime),
        call_ensures(Q15p8::const_div, (a, b), constant),
    ensures
        runtime == constant,
{
    runtime.lemma_view_injective(constant);
}

/// On every operand, `neg` and `const_neg` of the 24-bit format return the
/// same value.
pub proof fn lemma_q15p8_neg_variants_agree(a: Q15p8, runtime: Q15p8, constant: Q15p8)
    requires
        call_ensures(Q15p8::neg, (a,), runtime),
        call_ensures(Q15p8::const_neg, (a,), constant),
    ensures
        runtime == constant,
{
    runtime.lemma_view_injective(constant);
}

/// On every operand, `abs` and `const_abs` of the 24-bit format return the
/// same value.
pub proof fn lemma_q15p8_abs_variants_agree(a: Q15p8, runtime: Q15p8, constant: Q15p8)
    requires
        call_ensures(Q15p8::abs, (a,), runtime),
        call_ensures(Q15p8::const_abs, (a,), constant),
    ensures
        runtime == constant,
{
    runtime.lemma_view_injective(constant);
}

} // verus!
