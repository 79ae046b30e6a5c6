//! HarmonicOscillatorBank: a fixed table of weighted sine partials, summed at
//! one time point, optionally under a decay envelope factor.
use vstd::prelude::*;

use crate::fx::{fx_add, fx_mul, fx_mul_spec, fx_sat, FX_ONE, FX_TWO_PI};
use crate::trig::{sine, sine_spec};

verus! {

/// One partial of a timbre: a frequency (fixed-point, in hertz) and the
/// weight of its sine in the sum.
#[derive(Clone, Copy, Debug, PartialEq, Eq, Structural)]
pub struct HarmonicTerm {
    pub freq: i64,
    pub weight: i64,
}

impl HarmonicTerm {
    /// Frequencies are nonnegative.
    pub open spec fn wf(&self) -> bool {
        self.freq >= 0
    }
}

/// The time of sample `n` at the given rate, as a fixed-point number of
/// seconds.
pub open spec fn time_of_sample_spec(n: int, sample_rate: int) -> int {
    fx_sat(n * (FX_ONE as int) / sample_rate)
}

/// Map a sample index to fixed-point time.
pub fn time_of_sample(n: u64, sample_rate: u32) -> (r: i64)
    requires
        sample_rate >= 1,
    ensures
        r as int == time_of_sample_spec(n as int, sample_rate as int),
        r >= 0,
{
    proof {
        assert((n as int) * (FX_ONE as int) <= 0xffff_ffff_ffff_ffff * 0x1_0000_0000)
            by (nonlinear_arith)
            requires
                0 <= n as int <= 0xffff_ffff_ffff_ffff,
        ;
    }
    let num: u128 = (n as u128) * (FX_ONE as u128);
    let q: u128 = num / (sample_rate as u128);
    if q > i64::MAX as u128 {
        i64::MAX
    } else {
        q as i64
    }
}

/// The phase angle of a partial at a time point: the fractional part of
/// `frequency * time` (whole cycles are discarded), scaled to radians.
pub open spec fn angle_spec(freq: int, t: int) -> int {
    let phase = fx_mul_spec(freq, t);
    let rem = phase % (FX_ONE as int);
    fx_mul_spec(rem, FX_TWO_PI as int)
}

/// Compute the phase angle of a partial; the result stays within one circle.
pub fn angle_of(freq: i64, t: i64) -> (r: i64)
    requires
        freq >= 0,
        t >= 0,
    ensures
        r as int == angle_spec(freq as int, t as int),
        0 <= r <= FX_TWO_PI,
{
    proof {
        assert(freq as int * t as int >= 0) by (nonlinear_arith)
            requires
                freq as int >= 0,
                t as int >= 0,
        ;
        assert(freq as int * t as int / (FX_ONE as int) >= 0) by (nonlinear_arith)
            requires
                freq as int * t as int >= 0,
        ;
    }
    let phase: i64 = fx_mul(freq, t);
    let rem: i64 = ((phase as u64) % (FX_ONE as u64)) as i64;
    proof {
        let r = rem as int;
        assert(0 <= r * (FX_TWO_PI as int) <= (FX_ONE as int - 1) * (FX_TWO_PI as int))
            by (nonlinear_arith)
            requires
                0 <= r <= FX_ONE as int - 1,
        ;
        assert(r * (FX_TWO_PI as int) / (FX_ONE as int) <= FX_TWO_PI as int)
            by (nonlinear_arith)
            requires
                0 <= r * (FX_TWO_PI as int) <= (FX_ONE as int - 1) * (FX_TWO_PI as int),
        ;
        assert(r * (FX_TWO_PI as int) / (FX_ONE as int) >= 0) by (nonlinear_arith)
            requires
                r * (FX_TWO_PI as int) >= 0,
        ;
    }
    fx_mul(rem, FX_TWO_PI)
}

/// What one partial contributes at a time point: its weighted sine.
pub open spec fn term_contrib_spec(term: HarmonicTerm, t: int) -> int {
    fx_mul_spec(term.weight as int, sine_spec(angle_spec(term.freq as int, t)))
}

/// The saturating sum of the first `k` partials' contributions at time `t`.
pub open spec fn bank_sum_spec(terms: Seq<HarmonicTerm>, t: int, k: nat) -> int
    recommends
        k <= terms.len(),
    decreases k,
{
    if k == 0 {
        0
    } else {
        fx_sat(bank_sum_spec(terms, t, (k - 1) as nat) + term_contrib_spec(terms[k - 1 as int], t))
    }
}

/// A fixed ordered table of partials defining one timbre.
pub struct HarmonicOscillatorBank {
    pub terms: Vec<HarmonicTerm>,
}

impl HarmonicOscillatorBank {
    /// Every partial has a nonnegative frequency.
    pub open spec fn wf(&self) -> bool {
        forall|i: int| 0 <= i < self.terms@.len() ==> (#[trigger] self.terms@[i]).wf()
    }

    /// Sum the weighted sine partials at time `t` and scale the sum by the
    /// supplied envelope value (pass one for no envelope).
    pub fn evaluate(&self, t: i64, env_value: i64) -> (r: i64)
        requires
            self.wf(),
            t >= 0,
        ensures
            r as int == fx_mul_spec(
                env_value as int,
                bank_sum_spec(self.terms@, t as int, self.terms@.len()),
            ),
    {
        let mut acc: i64 = 0;
        let mut i: usize = 0;
        while i < self.terms.len()
            invariant
                self.wf(),
                t >= 0,
                i <= self.terms@.len(),
                acc as int == bank_sum_spec(self.terms@, t as int, i as nat),
            decreases self.terms@.len() - i,
        {
            let a: i64 = angle_of(self.terms[i].freq, t);
            let s: i64 = sine(a);
            acc = fx_add(acc, fx_mul(self.terms[i].weight, s));
            i = i + 1;
        }
        fx_mul(env_value, acc)
    }
}

/// At the first sample the bank is silent: every partial's phase is zero, the
/// sine of zero is zero, so the whole weighted sum is zero.
pub proof fn lemma_bank_silent_at_start(terms: Seq<HarmonicTerm>, k: nat)
    requires
        k <= terms.len(),
    ensures
        bank_sum_spec(terms, 0, k) == 0,
    decreases k,
{
    if k > 0 {
        lemma_bank_silent_at_start(terms, (k - 1) as nat);
        let term = terms[k - 1 as int];
        assert(term.freq as int * 0 == 0) by (nonlinear_arith);
        assert(angle_spec(term.freq as int, 0) == 0);
        assert(term.weight as int * 0 == 0) by (nonlinear_arith);
        assert(term_contrib_spec(term, 0) == 0);
    }
}

} // verus!
