//! PcmQuantizer: maps a fixed-point sample in the normalized range onto a
//! signed fixed-width PCM integer, truncating toward zero and clamping
//! explicitly after scaling.
use vstd::prelude::*;

use crate::combiner::clip_spec;
use crate::errors::SynthError;
use crate::fx::{tdiv, FX_ONE};

verus! {

/// The largest positive PCM value of a supported container width; zero for
/// an unsupported width.
pub open spec fn pcm_max(bit_depth: u32) -> int {
    if bit_depth == 8 {
        0x7f
    } else if bit_depth == 16 {
        0x7fff
    } else if bit_depth == 24 {
        0x7f_ffff
    } else if bit_depth == 32 {
        0x7fff_ffff
    } else {
        0
    }
}

/// Whether the container width is one the quantizer supports.
pub open spec fn supported_depth(bit_depth: u32) -> bool {
    bit_depth == 8 || bit_depth == 16 || bit_depth == 24 || bit_depth == 32
}

/// What quantization returns: the sample scaled by the largest positive PCM
/// value, truncated toward zero, then clamped into the PCM range.
pub open spec fn quantize_spec(sample: int, bit_depth: u32) -> int {
    clip_spec(
        tdiv(sample * pcm_max(bit_depth), FX_ONE as int),
        -pcm_max(bit_depth) - 1,
        pcm_max(bit_depth),
    )
}

/// Quantize one normalized sample to a PCM integer of the given width.
/// Succeeds exactly on the supported container widths.
pub fn quantize(sample: i64, bit_depth: u32) -> (r: Result<i32, SynthError>)
    ensures
        r is Ok <==> supported_depth(bit_depth),
        r matches Ok(q) ==> q as int == quantize_spec(sample as int, bit_depth),
        r matches Err(e) ==> e == SynthError::UnsupportedBitDepth,
{
    let max: i64 = if bit_depth == 8 {
        0x7f
    } else if bit_depth == 16 {
        0x7fff
    } else if bit_depth == 24 {
        0x7f_ffff
    } else if bit_depth == 32 {
        0x7fff_ffff
    } else {
        return Err(SynthError::UnsupportedBitDepth);
    };
    proof {
        assert((sample as int) * (max as int) <= 0x8000_0000_0000_0000 * 0x8000_0000
            && (sample as int) * (max as int) >= -(0x8000_0000_0000_0000 * 0x8000_0000))
            by (nonlinear_arith)
            requires
                -0x8000_0000_0000_0000 <= sample as int <= 0x7fff_ffff_ffff_ffff,
                0 <= max as int <= 0x7fff_ffff,
        ;
    }
    let p: i128 = (sample as i128) * (max as i128);
    let neg: bool = p < 0;
    let mag: u128 = if p >= 0 {
        p as u128
    } else {
        (-p) as u128
    };
    let q: u128 = mag / (FX_ONE as u128);
    assert(q <= mag) by (nonlinear_arith)
        requires
            q == mag / (FX_ONE as u128),
    ;
    let qi: i128 = q as i128;
    let scaled: i128 = if neg {
        -qi
    } else {
        qi
    };
    assert(scaled == tdiv(p as int, FX_ONE as int));
    let lo: i128 = -(max as i128) - 1;
    let hi: i128 = max as i128;
    let clamped: i128 = if scaled < lo {
        lo
    } else if scaled > hi {
        hi
    } else {
        scaled
    };
    Ok(clamped as i32)
}

/// A sample inside the normalized range quantizes, at sixteen bits, into the
/// sixteen-bit PCM range; the scaling is symmetric, so the magnitude stays
/// at or below the largest positive PCM value.
pub proof fn lemma_quantize_unit_range(sample: int)
    requires
        -(FX_ONE as int) <= sample <= FX_ONE as int,
    ensures
        -0x7fff <= quantize_spec(sample, 16) <= 0x7fff,
{
    assert(-(FX_ONE as int) * 0x7fff <= sample * 0x7fff <= (FX_ONE as int) * 0x7fff)
        by (nonlinear_arith)
        requires
            -(FX_ONE as int) <= sample <= FX_ONE as int,
    ;
    let p = sample * 0x7fff;
    if p >= 0 {
        assert(p / (FX_ONE as int) <= 0x7fff) by (nonlinear_arith)
            requires
                0 <= p <= (FX_ONE as int) * 0x7fff,
        ;
    } else {
        assert((-p) / (FX_ONE as int) <= 0x7fff) by (nonlinear_arith)
            requires
                0 < -p <= (FX_ONE as int) * 0x7fff,
        ;
        assert(0 <= (-p) / (FX_ONE as int)) by (nonlinear_arith)
            requires
                0 < -p,
        ;
    }
}

/// Quantization is symmetric at the range ends: the normalized extremes map
/// to the largest positive PCM value and its negation (truncation toward
/// zero, never the most negative PCM value).
pub proof fn lemma_quantize_symmetric_extremes()
    ensures
        quantize_spec(FX_ONE as int, 16) == 0x7fff,
        quantize_spec(-(FX_ONE as int), 16) == -0x7fff,
{
    assert((FX_ONE as int) * 0x7fff / (FX_ONE as int) == 0x7fff) by (nonlinear_arith);
    assert(-(FX_ONE as int) * 0x7fff == -((FX_ONE as int) * 0x7fff)) by (nonlinear_arith);
}

} // verus!
