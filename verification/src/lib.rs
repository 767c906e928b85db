//! Fixed-point arithmetic for small microcontrollers.
//!
//! Two binary fixed-point formats are provided, both with eight fractional
//! bits: [`Q7p8`] (16 bits) and [`Q15p8`] (24 bits). Every operation is a
//! total, pure function that never fails: a result out of range saturates,
//! and a division by zero gives the bound on the side of the dividend's sign.
//! The one exception is the multiplication of [`Q7p8`], which wraps.
//!
//! Each operation comes in two variants, a plain one and one named `const_`,
//! which return the same value on every input.

pub mod arith;
pub mod curve;
mod int24;
pub mod laws;
mod compare;
pub mod q15p8;
pub mod q7p8;

pub use crate::curve::{lin_inter, CurvePoint, FixedPoint};
pub use crate::q15p8::Q15p8;
pub use crate::q7p8::Q7p8;
