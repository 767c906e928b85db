//! Linear interpolation between two points of a curve, for any fixed-point
//! format.

use crate::arith::{max16, min16, product16, quotient, sat16};
use crate::q7p8::Q7p8;
use vstd::prelude::*;

verus! {

/// A fixed-point format: what interpolation needs of its arithmetic.
pub trait FixedPoint: Copy {
    /// The stored scaled integer of a value.
    spec fn raw(&self) -> int;

    /// The stored integer of the format's sum of two values.
    spec fn sum(a: int, b: int) -> int;

    /// The stored integer of the format's difference of two values.
    spec fn difference(a: int, b: int) -> int;

    /// The stored integer of the format's product of two values.
    spec fn product(a: int, b: int) -> int;

    /// The stored integer of the format's quotient of two values.
    spec fn ratio(a: int, b: int) -> int;

    /// The difference of a value and itself is zero.
    proof fn lemma_difference_self(a: Self)
        ensures
            Self::difference(a.raw(), a.raw()) == 0,
    ;

    /// The format's addition.
    fn plus(self, other: Self) -> (r: Self)
        ensures
            r.raw() == Self::sum(self.raw(), other.raw()),
    ;

    /// The format's subtraction.
    fn minus(self, other: Self) -> (r: Self)
        ensures
            r.raw() == Self::difference(self.raw(), other.raw()),
    ;

    /// The format's multiplication.
    fn times(self, other: Self) -> (r: Self)
        ensures
            r.raw() == Self::product(self.raw(), other.raw()),
    ;

    /// The format's division.
    fn over(self, other: Self) -> (r: Self)
        ensures
            r.raw() == Self::ratio(self.raw(), other.raw()),
    ;

    /// Whether the value is zero.
    fn is_zero(&self) -> (r: bool)
        ensures
            r == (self.raw() == 0),
    ;
}

/// A point of a curve with coordinates of type `T`.
pub trait CurvePoint<T> {
    /// The point's `x` coordinate.
    spec fn x_coord(&self) -> T;

    /// The point's `y` coordinate.
    spec fn y_coord(&self) -> T;

    /// Get the `x` coordinate of this curve point.
    fn x(&self) -> (r: T)
        ensures
            r == self.x_coord(),
    ;

    /// Get the `y` coordinate of this curve point.
    fn y(&self) -> (r: T)
        ensures
            r == self.y_coord(),
    ;
}

impl FixedPoint for Q7p8 {
    open spec fn raw(&self) -> int {
        self@
    }

    open spec fn sum(a: int, b: int) -> int {
        sat16(a + b)
    }

    open spec fn difference(a: int, b: int) -> int {
        sat16(a - b)
    }

    open spec fn product(a: int, b: int) -> int {
        product16(a, b)
    }

    open spec fn ratio(a: int, b: int) -> int {
        quotient(a, b, min16(), max16())
    }

    proof fn lemma_difference_self(a: Self) {
    }

    fn plus(self, other: Self) -> (r: Self) {
        self.add(other)
    }

    fn minus(self, other: Self) -> (r: Self) {
        self.sub(other)
    }

    fn times(self, other: Self) -> (r: Self) {
        self.mul(other)
    }

    fn over(self, other: Self) -> (r: Self) {
        self.div(other)
    }

    fn is_zero(&self) -> (r: bool) {
        self.to_q() == 0
    }
}

impl CurvePoint<Q7p8> for (Q7p8, Q7p8) {
    open spec fn x_coord(&self) -> Q7p8 {
        self.0
    }

    open spec fn y_coord(&self) -> Q7p8 {
        self.1
    }

    fn x(&self) -> (r: Q7p8) {
        self.0
    }

    fn y(&self) -> (r: Q7p8) {
        self.1
    }
}

/// The stored integer of the value interpolated at `x` between the points
/// `(lx, ly)` and `(rx, ry)`, all given by their stored integers.
///
/// Every step is the format's own operation, so the result saturates where
/// the format's operations do. An interval of width zero gives `ly`.
pub open spec fn interpolated<T: FixedPoint>(x: int, lx: int, ly: int, rx: int, ry: int) -> int {
    let dx = T::difference(rx, lx);
    let dy = T::difference(ry, ly);
    if dx == 0 {
        ly
    } else {
        T::sum(T::product(T::difference(x, lx), T::ratio(dy, dx)), ly)
    }
}

/// Interpolate the `y` coordinate that corresponds to `x` on the straight
/// line through the `left` and the `right` curve point.
pub fn lin_inter<T: FixedPoint, L: CurvePoint<T>, R: CurvePoint<T>>(x: T, left: &L, right: &R) -> (r: T)
    ensures
        r.raw() == interpolated::<T>(
            x.raw(),
            left.x_coord().raw(),
            left.y_coord().raw(),
            right.x_coord().raw(),
            right.y_coord().raw(),
        ),
        T::difference(right.x_coord().raw(), left.x_coord().raw()) == 0 ==> r == left.y_coord(),
{
    let dx = right.x().minus(left.x());
    let dy = right.y().minus(left.y());
    if dx.is_zero() {
        left.y()
    } else {
        x.minus(left.x()).times(dy.over(dx)).plus(left.y())
    }
}

/// Two reference points with the same `x` give the left point's `y`,
/// whatever the query.
pub proof fn lemma_interpolated_degenerate<T: FixedPoint>(x: T, left: (T, T), right: (T, T))
    requires
        left.0.raw() == right.0.raw(),
    ensures
        interpolated::<T>(x.raw(), left.0.raw(), left.1.raw(), right.0.raw(), right.1.raw())
            == left.1.raw(),
{
    T::lemma_difference_self(left.0);
}

impl Q7p8 {
    /// Interpolate the `y` coordinate that corresponds to the `x` coordinate
    /// `self` between the `left` and the `right` curve point.
    pub fn lin_inter(&self, left: &(Q7p8, Q7p8), right: &(Q7p8, Q7p8)) -> (r: Q7p8)
        ensures
            r@ == interpolated::<Q7p8>(self@, left.0@, left.1@, right.0@, right.1@),
    {
        lin_inter(*self, left, right)
    }
}

} // verus!
