//! Transcendental evaluations the library cannot compute itself: sine and
//! the exponential on fixed-point numbers, provided by the cordic crate.
//! Their results are named, not restated: each is a function of its argument
//! alone.
use vstd::prelude::*;

use crate::fx::{FX_ONE, FX_TWO_PI};

verus! {

/// What cordic's sine returns for a fixed-point angle in radians.
pub uninterp spec fn sin_fx(angle: int) -> int;

/// What cordic's exponential returns for a fixed-point argument.
pub uninterp spec fn exp_fx(x: int) -> int;

/// Arguments below this bound are flushed to zero before the exponential is
/// taken: the true value of the exponential there is below the smallest
/// positive fixed-point number.
pub const FX_EXP_FLUSH: i64 = -0x18_0000_0000;

/// Relies on cordic::sin on a signed fixed number with 32 fractional bits:
/// the result depends on the angle alone.
#[verifier::external_body]
pub(crate) fn sin_cordic(angle: i64) -> (r: i64)
    requires
        0 <= angle <= FX_TWO_PI,
    ensures
        r as int == sin_fx(angle as int),
{
    cordic::sin(fixed::types::I32F32::from_bits(angle)).to_bits()
}

/// Relies on cordic::exp on a signed fixed number with 32 fractional bits:
/// the result depends on the argument alone; for a nonpositive argument it
/// multiplies and divides nonnegative factors, so it is nonnegative, and at
/// zero every factor is exactly one.
#[verifier::external_body]
pub(crate) fn exp_cordic(x: i64) -> (r: i64)
    requires
        FX_EXP_FLUSH <= x <= 0,
    ensures
        r as int == exp_fx(x as int),
        r >= 0,
        x == 0 ==> r == FX_ONE,
{
    cordic::exp(fixed::types::I32F32::from_bits(x)).to_bits()
}

/// The sine the library exposes: exactly zero at zero phase, cordic's sine
/// elsewhere. Keeping zero exact makes silence stay silence.
pub open spec fn sine_spec(angle: int) -> int {
    if angle == 0 {
        0
    } else {
        sin_fx(angle)
    }
}

/// Fixed-point sine of an angle within one full circle.
pub fn sine(angle: i64) -> (r: i64)
    requires
        0 <= angle <= FX_TWO_PI,
    ensures
        r as int == sine_spec(angle as int),
{
    if angle == 0 {
        0
    } else {
        sin_cordic(angle)
    }
}

} // verus!
