//! SignalCombiner: folds several per-sample sources into one sample and
//! clamps amplitudes into a closed range.
use vstd::prelude::*;

use crate::fx::{fx_add, fx_mul, fx_mul_spec, fx_sat, FX_ONE};

verus! {

/// How a set of per-sample sources is folded into one sample.
pub enum CombineOp {
    /// Saturating sum of all sources.
    Sum,
    /// Fixed-point product of all sources (the product over no sources is one).
    Product,
    /// Saturating sum of each source scaled by the weight at its index.
    WeightedSum(Vec<i64>),
}

/// A hard saturating clamp of `v` into `[lo, hi]`.
pub open spec fn clip_spec(v: int, lo: int, hi: int) -> int {
    if v < lo {
        lo
    } else if v > hi {
        hi
    } else {
        v
    }
}

/// Clamp a sample into `[lo, hi]`: values at or beyond a bound map to the
/// bound (hard saturation, not soft limiting).
pub fn clip(v: i64, lo: i64, hi: i64) -> (r: i64)
    requires
        lo <= hi,
    ensures
        r as int == clip_spec(v as int, lo as int, hi as int),
{
    if v < lo {
        lo
    } else if v > hi {
        hi
    } else {
        v
    }
}

/// Clipping is idempotent: clamping an already clamped value changes nothing.
pub proof fn lemma_clip_idempotent(v: int, lo: int, hi: int)
    requires
        lo <= hi,
    ensures
        clip_spec(clip_spec(v, lo, hi), lo, hi) == clip_spec(v, lo, hi),
{
}

/// A clipped value lies inside the clamping range.
pub proof fn lemma_clip_in_range(v: int, lo: int, hi: int)
    requires
        lo <= hi,
    ensures
        lo <= clip_spec(v, lo, hi) <= hi,
{
}

/// The saturating sum of the first `k` sources.
pub open spec fn sum_spec(values: Seq<i64>, k: nat) -> int
    recommends
        k <= values.len(),
    decreases k,
{
    if k == 0 {
        0
    } else {
        fx_sat(sum_spec(values, (k - 1) as nat) + values[k - 1] as int)
    }
}

/// The fixed-point product of the first `k` sources.
pub open spec fn product_spec(values: Seq<i64>, k: nat) -> int
    recommends
        k <= values.len(),
    decreases k,
{
    if k == 0 {
        FX_ONE as int
    } else {
        fx_mul_spec(product_spec(values, (k - 1) as nat), values[k - 1] as int)
    }
}

/// The saturating sum of the first `k` sources, each scaled by its weight.
pub open spec fn weighted_sum_spec(values: Seq<i64>, weights: Seq<i64>, k: nat) -> int
    recommends
        k <= values.len(),
        k <= weights.len(),
    decreases k,
{
    if k == 0 {
        0
    } else {
        fx_sat(
            weighted_sum_spec(values, weights, (k - 1) as nat) + fx_mul_spec(
                weights[k - 1] as int,
                values[k - 1] as int,
            ),
        )
    }
}

/// What `combine` returns for each folding operation.
pub open spec fn combine_spec(values: Seq<i64>, op: CombineOp) -> int {
    match op {
        CombineOp::Sum => sum_spec(values, values.len()),
        CombineOp::Product => product_spec(values, values.len()),
        CombineOp::WeightedSum(w) => weighted_sum_spec(values, w@, values.len()),
    }
}

/// Fold the per-sample sources into one sample.
pub fn combine(values: &Vec<i64>, op: &CombineOp) -> (r: i64)
    requires
        op matches CombineOp::WeightedSum(w) ==> w@.len() == values@.len(),
    ensures
        r as int == combine_spec(values@, *op),
{
    match op {
        CombineOp::Sum => {
            let mut acc: i64 = 0;
            let mut i: usize = 0;
            while i < values.len()
                invariant
                    i <= values@.len(),
                    acc as int == sum_spec(values@, i as nat),
                decreases values@.len() - i,
            {
                acc = fx_add(acc, values[i]);
                i = i + 1;
            }
            acc
        },
        CombineOp::Product => {
            let mut acc: i64 = FX_ONE;
            let mut i: usize = 0;
            while i < values.len()
                invariant
                    i <= values@.len(),
                    acc as int == product_spec(values@, i as nat),
                decreases values@.len() - i,
            {
                acc = fx_mul(acc, values[i]);
                i = i + 1;
            }
            acc
        },
        CombineOp::WeightedSum(weights) => {
            let mut acc: i64 = 0;
            let mut i: usize = 0;
            while i < values.len()
                invariant
                    i <= values@.len(),
                    weights@.len() == values@.len(),
                    acc as int == weighted_sum_spec(values@, weights@, i as nat),
                decreases values@.len() - i,
            {
                acc = fx_add(acc, fx_mul(weights[i], values[i]));
                i = i + 1;
            }
            acc
        },
    }
}

} // verus!
