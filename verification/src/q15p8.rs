//! The 24-bit format: fifteen integer bits, eight fractional bits and a sign.

use crate::arith::{
    fits24, int_part, magnitude, max24, min24, negation, of_int, quotient, sat16, sat24, SHIFT,
};
use crate::int24;
use crate::q7p8::Q7p8;
use vstd::prelude::*;

verus! {

/// Q15.8 fixed-point number.
///
/// The stored scaled integer is held in 32 bits and always lies within the
/// signed 24-bit range. Equality and order are those of the stored integer.
#[derive(Copy, Clone, Eq, Ord, Debug)]
pub struct Q15p8(i32);

impl View for Q15p8 {
    type V = int;

    /// The stored scaled integer.
    closed spec fn view(&self) -> int {
        self.0 as int
    }
}

/// The magnitude of a 24-bit value.
fn unsigned_magnitude(v: i32) -> (r: u32)
    requires
        fits24(v as int),
    ensures
        v >= 0 ==> r == v,
        v < 0 ==> r == -v,
{
    if v < 0 {
        (-v) as u32
    } else {
        v as u32
    }
}

impl Q15p8 {
    /// Length of the fractional part, in bits.
    pub const SHIFT: usize = crate::arith::SHIFT;

    /// The stored value is a signed 24-bit number.
    #[verifier::type_invariant]
    pub closed spec fn valid(self) -> bool {
        fits24(self.0 as int)
    }

    /// A valid value's view is a signed 24-bit number.
    pub proof fn lemma_view_fits(self)
        requires
            self.valid(),
        ensures
            fits24(self@),
    {
    }

    /// Two values with the same stored integer are the same value.
    pub proof fn lemma_view_injective(self, other: Self)
        requires
            self@ == other@,
        ensures
            self == other,
    {
    }

    /// The value whose stored integer is `v`, for a `v` that fits 24 bits.
    pub closed spec fn of_raw(v: int) -> Self {
        Q15p8(v as i32)
    }

    /// The value made of a stored integer that fits 24 bits is valid and has
    /// that stored integer.
    pub proof fn lemma_of_raw(v: int)
        requires
            fits24(v),
        ensures
            Self::of_raw(v)@ == v,
            Self::of_raw(v).valid(),
    {
    }

    /// Convert a raw Q15.8 value to [`Q15p8`]. A value outside the 24-bit
    /// range is saturated.
    pub fn from_q(q: i32) -> (r: Self)
        ensures
            r@ == sat24(q as int),
    {
        Q15p8(int24::from_i32(q))
    }

    /// Convert an integer value to [`Q15p8`] with fractional part being zero.
    pub fn from_int(n: i16) -> (r: Self)
        ensures
            r@ == of_int(n as int),
    {
        assert(SHIFT == 8);
        Q15p8(int24::shl8(int24::from_i16(n)))
    }

    /// Convert a numerator/denominator fraction to [`Q15p8`].
    ///
    /// The result is the quotient of the two numbers in the format's
    /// precision, rounded toward zero and saturated. A zero denominator gives
    /// the largest value for a numerator that is not negative and the
    /// smallest for one that is.
    pub fn from_fraction(numerator: i16, denominator: i16) -> (r: Self)
        ensures
            r@ == quotient(numerator as int, denominator as int, min24(), max24()),
    {
        Q15p8(int24::from_i16(numerator)).div(Q15p8(int24::from_i16(denominator)))
    }

    /// Convert a numerator/denominator fraction to [`Q15p8`].
    ///
    /// Gives the same value as [`Q15p8::from_fraction`] on every input.
    pub fn const_from_fraction(numerator: i16, denominator: i16) -> (r: Self)
        ensures
            r@ == quotient(numerator as int, denominator as int, min24(), max24()),
    {
        Q15p8(int24::from_i16(numerator)).const_div(Q15p8(int24::from_i16(denominator)))
    }

    /// Convert this [`Q15p8`] to a raw Q15.8 value.
    pub fn to_q(self) -> (r: i32)
        ensures
            r == self@,
            fits24(r as int),
    {
        proof {
            use_type_invariant(&self);
        }
        self.0
    }

    /// Extract the integer part out of this [`Q15p8`], rounded toward
    /// negative infinity.
    pub fn to_int(self) -> (r: i16)
        ensures
            r == int_part(self@),
    {
        assert(SHIFT == 8);
        int24::to_i16(int24::shr8(self.to_q()))
    }

    /// Convert this [`Q15p8`] to a [`Q7p8`]. A value outside the range of the
    /// narrower format is saturated.
    pub fn to_q7p8(&self) -> (r: Q7p8)
        ensures
            r@ == sat16(self@),
    {
        Q7p8::from_q(int24::to_i16(self.to_q()))
    }

    /// Add and saturate two [`Q15p8`] values.
    pub fn add(self, other: Self) -> (r: Self)
        ensures
            r@ == sat24(self@ + other@),
    {
        Q15p8(int24::add(self.to_q(), other.to_q()))
    }

    /// Add and saturate two [`Q15p8`] values.
    ///
    /// Gives the same value as [`Q15p8::add`] on every input.
    pub fn const_add(self, other: Self) -> (r: Self)
        ensures
            r@ == sat24(self@ + other@),
    {
        Q15p8(int24::const_add(self.to_q(), other.to_q()))
    }

    /// Subtract and saturate two [`Q15p8`] values.
    pub fn sub(self, other: Self) -> (r: Self)
        ensures
            r@ == sat24(self@ - other@),
    {
        Q15p8(int24::sub(self.to_q(), other.to_q()))
    }

    /// Subtract and saturate two [`Q15p8`] values.
    ///
    /// Gives the same value as [`Q15p8::sub`] on every input.
    pub fn const_sub(self, other: Self) -> (r: Self)
        ensures
            r@ == sat24(self@ - other@),
    {
        Q15p8(int24::const_sub(self.to_q(), other.to_q()))
    }

    /// Divide and saturate two [`Q15p8`] values.
    ///
    /// The dividend is widened and scaled up before the division, so that no
    /// fractional precision is lost. Division by zero gives the largest value
    /// for a dividend that is not negative and the smallest for one that is.
    pub fn div(self, other: Self) -> (r: Self)
        ensures
            r@ == quotient(self@, other@, min24(), max24()),
    {
        assert(SHIFT == 8);
        Q15p8(int24::shl8div(self.to_q(), other.to_q()))
    }

    /// Divide and saturate two [`Q15p8`] values.
    ///
    /// Gives the same value as [`Q15p8::div`] on every input. The quotient is
    /// formed in 32 bits from the magnitudes of the operands.
    pub fn const_div(self, other: Self) -> (r: Self)
        ensures
            r@ == quotient(self@, other@, min24(), max24()),
    {
        let a: i32 = self.to_q();
        let b: i32 = other.to_q();
        let c: i32 = if b == 0 {
            if a < 0 {
                i32::MIN
            } else {
                i32::MAX
            }
        } else {
            let ua: u32 = unsigned_magnitude(a);
            let n: u32 = ua << SHIFT;
            let d: u32 = unsigned_magnitude(b);
            assert(n == ua * 256) by (bit_vector)
                requires
                    n == ua << SHIFT,
                    ua <= 0x80_0000,
            ;
            let m: u32 = n / d;
            assert(m <= n) by (nonlinear_arith)
                requires
                    d >= 1,
                    m == n / d,
            ;
            if (a < 0) == (b < 0) {
                if m > 0x7FFF_FFFF {
                    i32::MAX
                } else {
                    m as i32
                }
            } else {
                if m > 0x7FFF_FFFF {
                    i32::MIN
                } else {
                    -(m as i32)
                }
            }
        };
        Q15p8(int24::from_i32(c))
    }

    /// Negate and saturate this [`Q15p8`] value: the negation of the smallest
    /// value is the largest.
    pub fn neg(self) -> (r: Self)
        ensures
            r@ == negation(self@, min24(), max24()),
    {
        Q15p8(int24::neg(self.to_q()))
    }

    /// Negate and saturate this [`Q15p8`] value.
    ///
    /// Gives the same value as [`Q15p8::neg`] on every input.
    pub fn const_neg(self) -> (r: Self)
        ensures
            r@ == negation(self@, min24(), max24()),
    {
        Q15p8(int24::const_neg(self.to_q()))
    }

    /// Get the absolute and saturated value of this [`Q15p8`].
    pub fn abs(self) -> (r: Self)
        ensures
            r@ == magnitude(self@, min24(), max24()),
    {
        Q15p8(int24::abs(self.to_q()))
    }

    /// Get the absolute and saturated value of this [`Q15p8`].
    ///
    /// Gives the same value as [`Q15p8::abs`] on every input.
    pub fn const_abs(self) -> (r: Self)
        ensures
            r@ == magnitude(self@, min24(), max24()),
    {
        Q15p8(int24::const_abs(self.to_q()))
    }
}

impl From<u8> for Q15p8 {
    fn from(value: u8) -> (r: Self) {
        Self::from_int(value as i16)
    }
}

impl vstd::std_specs::convert::FromSpecImpl<u8> for Q15p8 {
    open spec fn obeys_from_spec() -> bool {
        true
    }

    open spec fn from_spec(value: u8) -> Self {
        Self::of_raw(of_int(value as int))
    }
}

impl From<i8> for Q15p8 {
    fn from(value: i8) -> (r: Self) {
        Self::from_int(value as i16)
    }
}

impl vstd::std_specs::convert::FromSpecImpl<i8> for Q15p8 {
    open spec fn obeys_from_spec() -> bool {
        true
    }

    open spec fn from_spec(value: i8) -> Self {
        Self::of_raw(of_int(value as int))
    }
}

impl From<i16> for Q15p8 {
    fn from(value: i16) -> (r: Self) {
        Self::from_int(value)
    }
}

impl vstd::std_specs::convert::FromSpecImpl<i16> for Q15p8 {
    open spec fn obeys_from_spec() -> bool {
        true
    }

    open spec fn from_spec(value: i16) -> Self {
        Self::of_raw(of_int(value as int))
    }
}

impl From<Q15p8> for i16 {
    fn from(value: Q15p8) -> (r: Self) {
        value.to_int()
    }
}

impl vstd::std_specs::convert::FromSpecImpl<Q15p8> for i16 {
    open spec fn obeys_from_spec() -> bool {
        true
    }

    open spec fn from_spec(value: Q15p8) -> Self {
        int_part(value@) as i16
    }
}

impl From<Q7p8> for Q15p8 {
    fn from(value: Q7p8) -> (r: Self) {
        value.to_q15p8()
    }
}

impl vstd::std_specs::convert::FromSpecImpl<Q7p8> for Q15p8 {
    open spec fn obeys_from_spec() -> bool {
        true
    }

    open spec fn from_spec(value: Q7p8) -> Self {
        Self::of_raw(value@)
    }
}

impl core::ops::Add for Q15p8 {
    type Output = Self;

    fn add(self, other: Self) -> (r: Self) {
        self.add(other)
    }
}

impl vstd::std_specs::ops::AddSpecImpl for Q15p8 {
    open spec fn obeys_add_spec() -> bool {
        true
    }

    open spec fn add_req(self, other: Self) -> bool {
        true
    }

    open spec fn add_spec(self, other: Self) -> Self {
        Self::of_raw(sat24(self@ + other@))
    }
}

impl core::ops::AddAssign for Q15p8 {
    fn add_assign(&mut self, other: Self)
        ensures
            final(self)@ == sat24(old(self)@ + other@),
    {
        *self = self.add(other);
    }
}

impl core::ops::Sub for Q15p8 {
    type Output = Self;

    fn sub(self, other: Self) -> (r: Self) {
        self.sub(other)
    }
}

impl vstd::std_specs::ops::SubSpecImpl for Q15p8 {
    open spec fn obeys_sub_spec() -> bool {
        true
    }

    open spec fn sub_req(self, other: Self) -> bool {
        true
    }

    open spec fn sub_spec(self, other: Self) -> Self {
        Self::of_raw(sat24(self@ - other@))
    }
}

impl core::ops::SubAssign for Q15p8 {
    fn sub_assign(&mut self, other: Self)
        ensures
            final(self)@ == sat24(old(self)@ - other@),
    {
        *self = self.sub(other);
    }
}

impl core::ops::Div for Q15p8 {
    type Output = Self;

    fn div(self, other: Self) -> (r: Self) {
        self.div(other)
    }
}

impl vstd::std_specs::ops::DivSpecImpl for Q15p8 {
    open spec fn obeys_div_spec() -> bool {
        true
    }

    open spec fn div_req(self, other: Self) -> bool {
        true
    }

    open spec fn div_spec(self, other: Self) -> Self {
        Self::of_raw(quotient(self@, other@, min24(), max24()))
    }
}

impl core::ops::DivAssign for Q15p8 {
    fn div_assign(&mut self, other: Self)
        ensures
            final(self)@ == quotient(old(self)@, other@, min24(), max24()),
    {
        *self = self.div(other);
    }
}

impl core::ops::Neg for Q15p8 {
    type Output = Self;

    fn neg(self) -> (r: Self) {
        self.neg()
    }
}

impl vstd::std_specs::ops::NegSpecImpl for Q15p8 {
    open spec fn obeys_neg_spec() -> bool {
        true
    }

    open spec fn neg_req(self) -> bool {
        true
    }

    open spec fn neg_spec(self) -> Self {
        Self::of_raw(negation(self@, min24(), max24()))
    }
}

} // verus!
