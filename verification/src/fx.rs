//! Saturating fixed-point arithmetic: signal amplitudes, frequencies and
//! time values are `i64` numbers carrying `FX_FRAC_BITS` fractional bits.
//! Every operation saturates at the representable range; this is the
//! library's explicit out-of-range policy (values never wrap and never
//! become undefined).
use vstd::prelude::*;

verus! {

/// The fixed-point unit: the representation of the real number one.
pub const FX_ONE: i64 = 0x1_0000_0000;

/// The largest representation of the full circle (two pi) that fits the
/// fractional precision: floor of two pi scaled by `FX_ONE`.
pub const FX_TWO_PI: i64 = 26986075409;

/// Clamp a mathematical integer into the `i64` range (the saturation policy).
pub open spec fn fx_sat(v: int) -> int {
    if v > i64::MAX as int {
        i64::MAX as int
    } else if v < i64::MIN as int {
        i64::MIN as int
    } else {
        v
    }
}

/// Division that truncates toward zero, for a positive divisor: the rounding
/// used when a product is brought back to the fixed-point scale.
pub open spec fn tdiv(n: int, d: int) -> int
    recommends
        d > 0,
{
    if n >= 0 {
        n / d
    } else {
        -((-n) / d)
    }
}

/// What fixed-point multiplication returns: the exact product, rescaled with
/// truncation toward zero, then saturated.
pub open spec fn fx_mul_spec(a: int, b: int) -> int {
    fx_sat(tdiv(a * b, FX_ONE as int))
}

/// Saturating fixed-point addition.
pub fn fx_add(a: i64, b: i64) -> (r: i64)
    ensures
        r as int == fx_sat(a + b),
{
    let s: i128 = a as i128 + b as i128;
    if s > i64::MAX as i128 {
        i64::MAX
    } else if s < i64::MIN as i128 {
        i64::MIN
    } else {
        s as i64
    }
}

/// Saturating negation.
pub fn fx_neg(a: i64) -> (r: i64)
    ensures
        r as int == fx_sat(-a),
{
    if a == i64::MIN {
        i64::MAX
    } else {
        -a
    }
}

/// Saturating fixed-point multiplication.
pub fn fx_mul(a: i64, b: i64) -> (r: i64)
    ensures
        r as int == fx_mul_spec(a as int, b as int),
{
    proof {
        assert((a as int) * (b as int) <= 0x8000_0000_0000_0000 * 0x8000_0000_0000_0000
            && (a as int) * (b as int) >= -(0x8000_0000_0000_0000 * 0x8000_0000_0000_0000))
            by (nonlinear_arith)
            requires
                -0x8000_0000_0000_0000 <= a as int <= 0x7fff_ffff_ffff_ffff,
                -0x8000_0000_0000_0000 <= b as int <= 0x7fff_ffff_ffff_ffff,
        ;
    }
    let p: i128 = (a as i128) * (b as i128);
    let neg: bool = p < 0;
    let mag: u128 = if p >= 0 {
        p as u128
    } else {
        (-p) as u128
    };
    let q: u128 = mag / (FX_ONE as u128);
    assert(q <= mag) by (nonlinear_arith)
        requires
            q == mag / (FX_ONE as u128),
    ;
    let qi: i128 = q as i128;
    let v: i128 = if neg {
        -qi
    } else {
        qi
    };
    assert(v == tdiv(p as int, FX_ONE as int));
    if v > i64::MAX as i128 {
        i64::MAX
    } else if v < i64::MIN as i128 {
        i64::MIN
    } else {
        v as i64
    }
}

/// Truncating division of a fixed-point value by a positive machine integer.
pub fn fx_div_int(v: i64, d: u64) -> (r: i64)
    requires
        1 <= d <= i64::MAX as u64,
    ensures
        r as int == tdiv(v as int, d as int),
{
    let neg: bool = v < 0;
    let mag: u64 = if v >= 0 {
        v as u64
    } else {
        (-(v as i128)) as u64
    };
    let q: u64 = mag / d;
    assert(q <= mag) by (nonlinear_arith)
        requires
            q == mag / d,
            d >= 1,
    ;
    if neg {
        (-(q as i128)) as i64
    } else {
        q as i64
    }
}

} // verus!
