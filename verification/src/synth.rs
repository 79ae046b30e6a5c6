//! The synthesis pipelines: per sample, generate the signal sources, combine
//! them, clamp, quantize, and collect the PCM stream in time order. One
//! routine renders a plain harmonic timbre; the other modulates it with the
//! truncated-series carrier.
use vstd::prelude::*;

use crate::combiner::{clip, clip_spec};
use crate::envelope::{env_pow, DecayEnvelope};
use crate::fx::{fx_mul, fx_mul_spec, FX_ONE};
use crate::harmonics::{
    bank_sum_spec, lemma_bank_silent_at_start, time_of_sample, time_of_sample_spec,
    HarmonicOscillatorBank, HarmonicTerm,
};
use crate::quantizer::{quantize, quantize_spec};
use crate::series::{evaluate, series_value};

verus! {

/// The envelope factor a pipeline runs with: one when no envelope is given.
pub open spec fn env_factor_of(env: Option<&DecayEnvelope>) -> int {
    match env {
        Option::None => FX_ONE as int,
        Option::Some(e) => e.factor_spec(),
    }
}

/// The PCM value of sample `n` of the harmonic pipeline: the enveloped
/// weighted sine sum at the sample's time, scaled by the output gain,
/// clamped to the normalized range, and quantized to sixteen bits.
pub open spec fn harmonic_sample_spec(
    terms: Seq<HarmonicTerm>,
    factor: int,
    n: int,
    sample_rate: int,
    gain: int,
) -> int {
    let t = time_of_sample_spec(n, sample_rate);
    let raw = fx_mul_spec(env_pow(factor, n as nat), bank_sum_spec(terms, t, terms.len()));
    let scaled = fx_mul_spec(raw, gain);
    let clipped = clip_spec(scaled, -(FX_ONE as int), FX_ONE as int);
    quantize_spec(clipped, 16)
}

/// Render `n_samples` PCM samples of the harmonic timbre, in time order.
pub fn render_harmonics(
    bank: &HarmonicOscillatorBank,
    env: Option<&DecayEnvelope>,
    n_samples: u32,
    sample_rate: u32,
    gain: i64,
) -> (r: Vec<i16>)
    requires
        bank.wf(),
        sample_rate >= 1,
        env matches Some(e) ==> e.wf(),
    ensures
        r@.len() == n_samples as int,
        forall|i: int|
            0 <= i < n_samples as int ==> (#[trigger] r@[i]) as int == harmonic_sample_spec(
                bank.terms@,
                env_factor_of(env),
                i,
                sample_rate as int,
                gain as int,
            ),
{
    let ghost factor: int = env_factor_of(env);
    let mut out: Vec<i16> = Vec::new();
    let mut ev: i64 = FX_ONE;
    let mut n: u32 = 0;
    while n < n_samples
        invariant
            bank.wf(),
            sample_rate >= 1,
            env matches Some(e) ==> e.wf(),
            factor == env_factor_of(env),
            n <= n_samples,
            out@.len() == n as int,
            ev as int == env_pow(factor, n as nat),
            env is None ==> ev == FX_ONE,
            forall|i: int|
                0 <= i < n as int ==> (#[trigger] out@[i]) as int == harmonic_sample_spec(
                    bank.terms@,
                    factor,
                    i,
                    sample_rate as int,
                    gain as int,
                ),
        decreases n_samples - n,
    {
        let t: i64 = time_of_sample(n as u64, sample_rate);
        let raw: i64 = bank.evaluate(t, ev);
        let scaled: i64 = fx_mul(raw, gain);
        let clipped: i64 = clip(scaled, -FX_ONE, FX_ONE);
        let q: i32 = match quantize(clipped, 16) {
            Ok(v) => v,
            Err(_) => 0,
        };
        out.push(q as i16);
        ev = match env {
            Option::Some(e) => e.step(ev),
            Option::None => ev,
        };
        n = n + 1;
    }
    out
}

/// The first sample of the harmonic pipeline is silence: at time zero every
/// partial's phase is zero, so the weighted sine sum, its enveloped and
/// scaled value, and the quantized PCM sample are all zero.
pub proof fn lemma_harmonic_pipeline_silent_at_start(
    terms: Seq<HarmonicTerm>,
    factor: int,
    sample_rate: int,
    gain: int,
)
    requires
        sample_rate >= 1,
    ensures
        harmonic_sample_spec(terms, factor, 0, sample_rate, gain) == 0,
{
    assert(0int / sample_rate == 0) by (nonlinear_arith)
        requires
            sample_rate >= 1,
    ;
    assert(time_of_sample_spec(0, sample_rate) == 0);
    lemma_bank_silent_at_start(terms, terms.len());
    assert(env_pow(factor, 0) * 0 == 0) by (nonlinear_arith);
    assert(fx_mul_spec(env_pow(factor, 0), 0) == 0);
    assert(0 * gain == 0) by (nonlinear_arith);
    assert(fx_mul_spec(0, gain) == 0);
}

/// The PCM value of sample `n` of the series pipeline: the truncated series
/// evaluated at the time-scaled argument and clamped to the normalized
/// range, multiplied by the enveloped harmonic timbre and the output gain,
/// clamped again, and quantized to sixteen bits.
pub open spec fn series_sample_spec(
    terms: Seq<HarmonicTerm>,
    factor: int,
    x_rate: int,
    order: nat,
    m_terms: nat,
    n: int,
    sample_rate: int,
    gain: int,
) -> int {
    let t = time_of_sample_spec(n, sample_rate);
    let carrier = clip_spec(
        series_value(fx_mul_spec(x_rate, t), order, m_terms),
        -(FX_ONE as int),
        FX_ONE as int,
    );
    let timbre = fx_mul_spec(env_pow(factor, n as nat), bank_sum_spec(terms, t, terms.len()));
    let scaled = fx_mul_spec(fx_mul_spec(carrier, timbre), gain);
    let clipped = clip_spec(scaled, -(FX_ONE as int), FX_ONE as int);
    quantize_spec(clipped, 16)
}

/// The first sample of the series pipeline is silence: whatever the series
/// carrier's value, the harmonic factor it multiplies is zero at time zero.
pub proof fn lemma_series_pipeline_silent_at_start(
    terms: Seq<HarmonicTerm>,
    factor: int,
    x_rate: int,
    order: nat,
    m_terms: nat,
    sample_rate: int,
    gain: int,
)
    requires
        sample_rate >= 1,
    ensures
        series_sample_spec(terms, factor, x_rate, order, m_terms, 0, sample_rate, gain) == 0,
{
    assert(0int / sample_rate == 0) by (nonlinear_arith)
        requires
            sample_rate >= 1,
    ;
    assert(time_of_sample_spec(0, sample_rate) == 0);
    lemma_bank_silent_at_start(terms, terms.len());
    assert(env_pow(factor, 0) * 0 == 0) by (nonlinear_arith);
    assert(fx_mul_spec(env_pow(factor, 0), 0) == 0);
    let carrier = clip_spec(
        series_value(fx_mul_spec(x_rate, 0), order, m_terms),
        -(FX_ONE as int),
        FX_ONE as int,
    );
    assert(carrier * 0 == 0) by (nonlinear_arith);
    assert(fx_mul_spec(carrier, 0) == 0);
    assert(0 * gain == 0) by (nonlinear_arith);
    assert(fx_mul_spec(0, gain) == 0);
}

/// Render `n_samples` PCM samples of the series carrier modulated by the
/// harmonic timbre, in time order. `x_rate` is the series argument per
/// second of elapsed time.
pub fn render_series_carrier(
    bank: &HarmonicOscillatorBank,
    env: Option<&DecayEnvelope>,
    x_rate: i64,
    order: u32,
    m_terms: u32,
    n_samples: u32,
    sample_rate: u32,
    gain: i64,
) -> (r: Vec<i16>)
    requires
        bank.wf(),
        sample_rate >= 1,
        order <= 20,
        env matches Some(e) ==> e.wf(),
    ensures
        r@.len() == n_samples as int,
        forall|i: int|
            0 <= i < n_samples as int ==> (#[trigger] r@[i]) as int == series_sample_spec(
                bank.terms@,
                env_factor_of(env),
                x_rate as int,
                order as nat,
                m_terms as nat,
                i,
                sample_rate as int,
                gain as int,
            ),
{
    let ghost factor: int = env_factor_of(env);
    let mut out: Vec<i16> = Vec::new();
    let mut ev: i64 = FX_ONE;
    let mut n: u32 = 0;
    while n < n_samples
        invariant
            bank.wf(),
            sample_rate >= 1,
            order <= 20,
            env matches Some(e) ==> e.wf(),
            factor == env_factor_of(env),
            n <= n_samples,
            out@.len() == n as int,
            ev as int == env_pow(factor, n as nat),
            env is None ==> ev == FX_ONE,
            forall|i: int|
                0 <= i < n as int ==> (#[trigger] out@[i]) as int == series_sample_spec(
                    bank.terms@,
                    factor,
                    x_rate as int,
                    order as nat,
                    m_terms as nat,
                    i,
                    sample_rate as int,
                    gain as int,
                ),
        decreases n_samples - n,
    {
        let t: i64 = time_of_sample(n as u64, sample_rate);
        let x: i64 = fx_mul(x_rate, t);
        let carrier: i64 = clip(evaluate(x, order, m_terms), -FX_ONE, FX_ONE);
        let timbre: i64 = bank.evaluate(t, ev);
        let scaled: i64 = fx_mul(fx_mul(carrier, timbre), gain);
        let clipped: i64 = clip(scaled, -FX_ONE, FX_ONE);
        let q: i32 = match quantize(clipped, 16) {
            Ok(v) => v,
            Err(_) => 0,
        };
        out.push(q as i16);
        ev = match env {
            Option::Some(e) => e.step(ev),
            Option::None => ev,
        };
        n = n + 1;
    }
    out
}

} // verus!
