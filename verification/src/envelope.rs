//! DecayEnvelope: the exponentially decaying amplitude factor that shapes a
//! plucked or struck timbre. The envelope is modeled per sample: one decay
//! step multiplies the running factor by a constant ratio below one, so the
//! factor's decay is a proved property, not a numerical accident.
use vstd::prelude::*;

use crate::combiner::clip_spec;
use crate::fx::{fx_mul, fx_mul_spec, tdiv, fx_div_int, FX_ONE};
use crate::trig::{exp_cordic, exp_fx, FX_EXP_FLUSH};

verus! {

/// The envelope value after `n` decay steps: the `n`-th fixed-point power of
/// the per-sample factor, starting from one.
pub open spec fn env_pow(factor: int, n: nat) -> int
    decreases n,
{
    if n == 0 {
        FX_ONE as int
    } else {
        fx_mul_spec(env_pow(factor, (n - 1) as nat), factor)
    }
}

/// What the envelope constructor computes from a decay constant and a sample
/// rate: the exponential of minus the per-sample decay, flushed to zero when
/// it is below fixed-point resolution, and clamped strictly below one.
pub open spec fn decay_factor_spec(k: int, sample_rate: int) -> int {
    let x = -tdiv(k, sample_rate);
    let e = if x < FX_EXP_FLUSH as int {
        0
    } else {
        exp_fx(x)
    };
    clip_spec(e, 0, FX_ONE as int - 1)
}

/// A multiplicative exponential decay envelope, applied once per sample.
pub struct DecayEnvelope {
    pub factor: i64,
}

impl DecayEnvelope {
    /// The per-sample factor is a fixed-point value in `[0, 1)`.
    pub open spec fn wf(&self) -> bool {
        0 <= self.factor < FX_ONE
    }

    /// The per-sample decay factor.
    pub open spec fn factor_spec(&self) -> int {
        self.factor as int
    }

    /// The per-sample decay factor, as a value.
    pub fn factor(&self) -> (r: i64)
        ensures
            r as int == self.factor_spec(),
    {
        self.factor
    }

    /// Build the envelope for decay constant `k` (fixed-point, per second) at
    /// the given sample rate: the per-sample factor is the exponential of
    /// minus `k` divided by the rate. The factor is kept strictly below one,
    /// so even a vanishing decay constant decays by the smallest fixed-point
    /// step; a signal that should not decay takes no envelope instead.
    pub fn new(k: i64, sample_rate: u32) -> (r: DecayEnvelope)
        requires
            k >= 0,
            sample_rate >= 1,
        ensures
            r.wf(),
            r.factor_spec() == decay_factor_spec(k as int, sample_rate as int),
    {
        let step: i64 = fx_div_int(k, sample_rate as u64);
        let x: i64 = -step;
        let e: i64 = if x < FX_EXP_FLUSH {
            0
        } else {
            exp_cordic(x)
        };
        let f: i64 = if e > FX_ONE - 1 {
            FX_ONE - 1
        } else {
            e
        };
        DecayEnvelope { factor: f }
    }

    /// Build the envelope directly from a per-sample factor below one.
    pub fn from_factor(factor: i64) -> (r: DecayEnvelope)
        requires
            0 <= factor < FX_ONE,
        ensures
            r.wf(),
            r.factor_spec() == factor as int,
    {
        DecayEnvelope { factor }
    }

    /// The envelope value after `n` decay steps.
    pub fn value_at(&self, n: u64) -> (r: i64)
        requires
            self.wf(),
        ensures
            r as int == env_pow(self.factor_spec(), n as nat),
    {
        let mut acc: i64 = FX_ONE;
        let mut i: u64 = 0;
        while i < n
            invariant
                i <= n,
                acc as int == env_pow(self.factor_spec(), i as nat),
            decreases n - i,
        {
            acc = fx_mul(acc, self.factor);
            i = i + 1;
        }
        acc
    }

    /// One decay step: the envelope value for the next sample.
    pub fn step(&self, value: i64) -> (r: i64)
        requires
            self.wf(),
        ensures
            r as int == fx_mul_spec(value as int, self.factor_spec()),
    {
        fx_mul(value, self.factor)
    }
}

/// The envelope value always lies between zero and one.
pub proof fn lemma_env_pow_bounds(factor: int, n: nat)
    requires
        0 <= factor < FX_ONE as int,
    ensures
        0 <= env_pow(factor, n) <= FX_ONE as int,
    decreases n,
{
    if n > 0 {
        lemma_env_pow_bounds(factor, (n - 1) as nat);
        let p = env_pow(factor, (n - 1) as nat);
        assert(0 <= p * factor <= (FX_ONE as int) * (FX_ONE as int - 1)) by (nonlinear_arith)
            requires
                0 <= p <= FX_ONE as int,
                0 <= factor < FX_ONE as int,
        ;
        assert(p * factor / (FX_ONE as int) <= FX_ONE as int) by (nonlinear_arith)
            requires
                0 <= p * factor <= (FX_ONE as int) * (FX_ONE as int - 1),
        ;
        assert(0 <= p * factor / (FX_ONE as int)) by (nonlinear_arith)
            requires
                0 <= p * factor,
        ;
    }
}

/// The envelope decays: from one sample to the next its value never grows,
/// and while it is still positive it strictly shrinks.
pub proof fn lemma_envelope_decay_step(factor: int, n: nat)
    requires
        0 <= factor < FX_ONE as int,
    ensures
        env_pow(factor, n + 1) <= env_pow(factor, n),
        env_pow(factor, n) > 0 ==> env_pow(factor, n + 1) < env_pow(factor, n),
{
    lemma_env_pow_bounds(factor, n);
    let p = env_pow(factor, n);
    assert(0 <= p * factor) by (nonlinear_arith)
        requires
            0 <= p,
            0 <= factor,
    ;
    if p > 0 {
        assert(p * factor <= p * (FX_ONE as int) - p) by (nonlinear_arith)
            requires
                0 <= p,
                0 <= factor <= FX_ONE as int - 1,
        ;
        assert(p * factor / (FX_ONE as int) < p) by (nonlinear_arith)
            requires
                0 <= p * factor,
                p * factor <= p * (FX_ONE as int) - p,
                p >= 1,
        ;
    } else {
        assert(p * factor == 0) by (nonlinear_arith)
            requires
                p == 0,
        ;
    }
}

/// Over any span of samples, the envelope value never increases.
pub proof fn lemma_envelope_monotone(factor: int, n1: nat, n2: nat)
    requires
        0 <= factor < FX_ONE as int,
        n1 <= n2,
    ensures
        env_pow(factor, n2) <= env_pow(factor, n1),
    decreases n2 - n1,
{
    if n1 < n2 {
        lemma_envelope_monotone(factor, n1, (n2 - 1) as nat);
        lemma_envelope_decay_step(factor, (n2 - 1) as nat);
    }
}

} // verus!
