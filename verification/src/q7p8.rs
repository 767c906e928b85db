//! The 16-bit format: seven integer bits, eight fractional bits and a sign.

use crate::arith::{
    fits16, int_part, magnitude, max16, min16, negation, of_int, product16, quotient, sat16,
    wrap16, SHIFT,
};
use crate::int24;
use crate::q15p8::Q15p8;
use vstd::prelude::*;

verus! {

/// Q7.8 fixed-point number.
///
/// Equality and order are those of the stored scaled integer.
#[derive(Copy, Clone, Eq, Ord, Debug)]
pub struct Q7p8(i16);

impl View for Q7p8 {
    type V = int;

    /// The stored scaled integer.
    closed spec fn view(&self) -> int {
        self.0 as int
    }
}

/// Clamps a 32-bit value into the 16-bit range.
fn saturate_i16(v: i32) -> (r: i16)
    ensures
        r == sat16(v as int),
{
    if v < -0x8000 {
        -0x8000
    } else if v > 0x7FFF {
        0x7FFF
    } else {
        v as i16
    }
}

/// The product of two stored values, its low [`SHIFT`] bits dropped, narrowed
/// to 16 bits. The product is formed in 32 bits, where it cannot overflow.
fn multiply(a: i16, b: i16) -> (r: i16)
    ensures
        r == product16(a as int, b as int),
{
    assert(-0x4000_0000 < a as int * b as int <= 0x4000_0000) by (nonlinear_arith)
        requires
            -0x8000 <= a <= 0x7FFF,
            -0x8000 <= b <= 0x7FFF,
    ;
    let p: i32 = a as i32 * b as i32;
    let s: i32 = p >> SHIFT;
    let r: i16 = #[verifier::truncate] (s as i16);
    proof {
        assert(s == p as int / 256) by (bit_vector)
            requires
                s == p >> SHIFT,
        ;
        assert(r == wrap16(s as int)) by (bit_vector)
            requires
                r == s as i16,
        ;
    }
    r
}

impl Q7p8 {
    /// Length of the fractional part, in bits.
    pub const SHIFT: usize = crate::arith::SHIFT;

    /// Every stored value is a signed 16-bit number.
    pub proof fn lemma_view_fits(self)
        ensures
            fits16(self@),
    {
    }

    /// Two values with the same stored integer are the same value.
    pub proof fn lemma_view_injective(self, other: Self)
        requires
            self@ == other@,
        ensures
            self == other,
    {
    }

    /// The value whose stored integer is `v`, for a `v` that fits 16 bits.
    pub closed spec fn of_raw(v: int) -> Self {
        Q7p8(v as i16)
    }

    /// The value made of a stored integer that fits 16 bits has that stored
    /// integer.
    pub proof fn lemma_of_raw(v: int)
        requires
            fits16(v),
        ensures
            Self::of_raw(v)@ == v,
    {
    }

    /// Convert a raw Q7.8 value to [`Q7p8`].
    pub fn from_q(q: i16) -> (r: Self)
        ensures
            r@ == q,
    {
        Q7p8(q)
    }

    /// Convert an integer value to [`Q7p8`] with fractional part being zero.
    pub fn from_int(n: i8) -> (r: Self)
        ensures
            r@ == of_int(n as int),
    {
        let w: i16 = n as i16;
        let q: i16 = w << SHIFT;
        assert(q == w * 256) by (bit_vector)
            requires
                q == w << SHIFT,
                -128 <= w <= 127,
        ;
        Self::from_q(q)
    }

    /// Convert a numerator/denominator fraction to [`Q7p8`].
    ///
    /// The result is the quotient of the two numbers in the format's
    /// precision, rounded toward zero and saturated. A zero denominator gives
    /// the largest value for a numerator that is not negative and the
    /// smallest for one that is.
    pub fn from_fraction(numerator: i16, denominator: i16) -> (r: Self)
        ensures
            r@ == quotient(numerator as int, denominator as int, min16(), max16()),
    {
        Q7p8(numerator).div(Q7p8(denominator))
    }

    /// Convert a numerator/denominator fraction to [`Q7p8`].
    ///
    /// Gives the same value as [`Q7p8::from_fraction`] on every input.
    pub fn const_from_fraction(numerator: i16, denominator: i16) -> (r: Self)
        ensures
            r@ == quotient(numerator as int, denominator as int, min16(), max16()),
    {
        Q7p8(numerator).const_div(Q7p8(denominator))
    }

    /// Convert this [`Q7p8`] to a raw Q7.8 value.
    pub fn to_q(self) -> (r: i16)
        ensures
            r == self@,
    {
        self.0
    }

    /// Extract the integer part out of this [`Q7p8`], rounded toward negative
    /// infinity.
    pub fn to_int(self) -> (r: i8)
        ensures
            r == int_part(self@),
    {
        let q: i16 = self.to_q();
        let s: i16 = q >> SHIFT;
        assert(s == q as int / 256 && -128 <= s <= 127) by (bit_vector)
            requires
                s == q >> SHIFT,
        ;
        s as i8
    }

    /// Convert this [`Q7p8`] to a [`Q15p8`]. The value is kept exactly.
    pub fn to_q15p8(&self) -> (r: Q15p8)
        ensures
            r@ == self@,
    {
        Q15p8::from_q(int24::from_i16(self.to_q()))
    }

    /// Add and saturate two [`Q7p8`] values.
    pub fn add(self, other: Self) -> (r: Self)
        ensures
            r@ == sat16(self@ + other@),
    {
        Q7p8(saturate_i16(self.0 as i32 + other.0 as i32))
    }

    /// Subtract and saturate two [`Q7p8`] values.
    pub fn sub(self, other: Self) -> (r: Self)
        ensures
            r@ == sat16(self@ - other@),
    {
        Q7p8(saturate_i16(self.0 as i32 - other.0 as i32))
    }

    /// Multiply two [`Q7p8`] values.
    ///
    /// The exact product is shifted right by the fractional bits, which
    /// rounds it toward negative infinity, and is then narrowed to 16 bits by
    /// dropping its high bits: unlike the other operations, a product out of
    /// range wraps.
    pub fn mul(self, other: Self) -> (r: Self)
        ensures
            r@ == product16(self@, other@),
    {
        Q7p8(multiply(self.0, other.0))
    }

    /// Multiply two [`Q7p8`] values.
    ///
    /// Gives the same value as [`Q7p8::mul`] on every input.
    pub fn const_mul(self, other: Self) -> (r: Self)
        ensures
            r@ == product16(self@, other@),
    {
        Q7p8(multiply(self.0, other.0))
    }

    /// Divide and saturate two [`Q7p8`] values.
    ///
    /// The dividend is widened and scaled up before the division, so that no
    /// fractional precision is lost. Division by zero gives the largest value
    /// for a dividend that is not negative and the smallest for one that is.
    pub fn div(self, other: Self) -> (r: Self)
        ensures
            r@ == quotient(self@, other@, min16(), max16()),
    {
        assert(SHIFT == 8);
        let a: i32 = int24::from_i16(self.0);
        let b: i32 = int24::from_i16(other.0);
        let c: i32 = int24::div(int24::shl8(a), b);
        Q7p8(int24::to_i16(c))
    }

    /// Divide and saturate two [`Q7p8`] values.
    ///
    /// Gives the same value as [`Q7p8::div`] on every input.
    pub fn const_div(self, other: Self) -> (r: Self)
        ensures
            r@ == quotient(self@, other@, min16(), max16()),
    {
        assert(SHIFT == 8);
        if other.0 == 0 {
            if self.0 >= 0 {
                Q7p8(i16::MAX)
            } else {
                Q7p8(i16::MIN)
            }
        } else {
            let a: i32 = int24::from_i16(self.0);
            let b: i32 = int24::from_i16(other.0);
            let c: i32 = int24::const_div(int24::shl8(a), b);
            Q7p8(int24::to_i16(c))
        }
    }

    /// Negate and saturate this [`Q7p8`] value: the negation of the smallest
    /// value is the largest.
    pub fn neg(self) -> (r: Self)
        ensures
            r@ == negation(self@, min16(), max16()),
    {
        Q7p8(saturate_i16(-(self.0 as i32)))
    }

    /// Get the absolute and saturated value of this [`Q7p8`].
    pub fn abs(self) -> (r: Self)
        ensures
            r@ == magnitude(self@, min16(), max16()),
    {
        if self.0 >= 0 {
            self
        } else {
            self.neg()
        }
    }
}

impl From<i8> for Q7p8 {
    fn from(value: i8) -> (r: Self) {
        Self::from_int(value)
    }
}

impl vstd::std_specs::convert::FromSpecImpl<i8> for Q7p8 {
    open spec fn obeys_from_spec() -> bool {
        true
    }

    open spec fn from_spec(value: i8) -> Self {
        Self::of_raw(of_int(value as int))
    }
}

impl From<Q7p8> for i8 {
    fn from(value: Q7p8) -> (r: Self) {
        value.to_int()
    }
}

impl vstd::std_specs::convert::FromSpecImpl<Q7p8> for i8 {
    open spec fn obeys_from_spec() -> bool {
        true
    }

    open spec fn from_spec(value: Q7p8) -> Self {
        int_part(value@) as i8
    }
}

impl From<Q15p8> for Q7p8 {
    fn from(value: Q15p8) -> (r: Self) {
        value.to_q7p8()
    }
}

impl vstd::std_specs::convert::FromSpecImpl<Q15p8> for Q7p8 {
    open spec fn obeys_from_spec() -> bool {
        true
    }

    open spec fn from_spec(value: Q15p8) -> Self {
        Self::of_raw(sat16(value@))
    }
}

impl core::ops::Add for Q7p8 {
    type Output = Self;

    fn add(self, other: Self) -> (r: Self) {
        self.add(other)
    }
}

impl vstd::std_specs::ops::AddSpecImpl for Q7p8 {
    open spec fn obeys_add_spec() -> bool {
        true
    }

    open spec fn add_req(self, other: Self) -> bool {
        true
    }

    open spec fn add_spec(self, other: Self) -> Self {
        Self::of_raw(sat16(self@ + other@))
    }
}

impl core::ops::AddAssign for Q7p8 {
    fn add_assign(&mut self, other: Self)
        ensures
            final(self)@ == sat16(old(self)@ + other@),
    {
        *self = self.add(other);
    }
}

impl core::ops::Sub for Q7p8 {
    type Output = Self;

    fn sub(self, other: Self) -> (r: Self) {
        self.sub(other)
    }
}

impl vstd::std_specs::ops::SubSpecImpl for Q7p8 {
    open spec fn obeys_sub_spec() -> bool {
        true
    }

    open spec fn sub_req(self, other: Self) -> bool {
        true
    }

    open spec fn sub_spec(self, other: Self) -> Self {
        Self::of_raw(sat16(self@ - other@))
    }
}

impl core::ops::SubAssign for Q7p8 {
    fn sub_assign(&mut self, other: Self)
        ensures
            final(self)@ == sat16(old(self)@ - other@),
    {
        *self = self.sub(other);
    }
}

impl core::ops::Mul for Q7p8 {
    type Output = Self;

    fn mul(self, other: Self) -> (r: Self) {
        self.mul(other)
    }
}

impl vstd::std_specs::ops::MulSpecImpl for Q7p8 {
    open spec fn obeys_mul_spec() -> bool {
        true
    }

    open spec fn mul_req(self, other: Self) -> bool {
        true
    }

    open spec fn mul_spec(self, other: Self) -> Self {
        Self::of_raw(product16(self@, other@))
    }
}

impl core::ops::MulAssign for Q7p8 {
    fn mul_assign(&mut self, other: Self)
        ensures
            final(self)@ == product16(old(self)@, other@),
    {
        *self = self.mul(other);
    }
}

impl core::ops::Div for Q7p8 {
    type Output = Self;

    fn div(self, other: Self) -> (r: Self) {
        self.div(other)
    }
}

impl vstd::std_specs::ops::DivSpecImpl for Q7p8 {
    open spec fn obeys_div_spec() -> bool {
        true
    }

    open spec fn div_req(self, other: Self) -> bool {
        true
    }

    open spec fn div_spec(self, other: Self) -> Self {
        Self::of_raw(quotient(self@, other@, min16(), max16()))
    }
}

impl core::ops::DivAssign for Q7p8 {
    fn div_assign(&mut self, other: Self)
        ensures
            final(self)@ == quotient(old(self)@, other@, min16(), max16()),
    {
        *self = self.div(other);
    }
}

impl core::ops::Neg for Q7p8 {
    type Output = Self;

    fn neg(self) -> (r: Self) {
        self.neg()
    }
}

impl vstd::std_specs::ops::NegSpecImpl for Q7p8 {
    open spec fn obeys_neg_spec() -> bool {
        true
    }

    open spec fn neg_req(self) -> bool {
        true
    }

    open spec fn neg_spec(self) -> Self {
        Self::of_raw(negation(self@, min16(), max16()))
    }
}

} // verus!
