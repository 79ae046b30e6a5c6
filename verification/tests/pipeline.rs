use wavesynth::combiner::{clip, combine, CombineOp};
use wavesynth::envelope::DecayEnvelope;
use wavesynth::fx::FX_ONE;
use wavesynth::harmonics::{time_of_sample, HarmonicOscillatorBank, HarmonicTerm};
use wavesynth::synth::{render_harmonics, render_series_carrier};

fn fx(v: f64) -> i64 {
    (v * 4294967296.0f64).round() as i64
}

fn to_f(v: i64) -> f64 {
    v as f64 / 4294967296.0f64
}

fn guitar_bank() -> HarmonicOscillatorBank {
    let table = [
        (130.81, 0.7),
        (261.63, 0.53),
        (392.0, 0.3),
        (523.25, 0.053),
        (653.16, 0.03),
        (785.14, 0.012),
        (916.22, 0.037),
    ];
    let mut terms = Vec::new();
    for &(f, w) in table.iter() {
        terms.push(HarmonicTerm { freq: fx(f), weight: fx(w) });
    }
    HarmonicOscillatorBank { terms }
}

#[test]
fn clip_is_idempotent_and_saturating() {
    let lo = -FX_ONE;
    let hi = FX_ONE;
    for &v in &[-3 * FX_ONE, -FX_ONE, -1, 0, 7, FX_ONE, 5 * FX_ONE] {
        let once = clip(v, lo, hi);
        assert_eq!(clip(once, lo, hi), once);
        assert!((lo..=hi).contains(&once));
    }
    assert_eq!(clip(2 * FX_ONE, lo, hi), FX_ONE);
    assert_eq!(clip(-2 * FX_ONE, lo, hi), -FX_ONE);
    assert_eq!(clip(7, lo, hi), 7);
}

#[test]
fn combine_sum_product_weighted() {
    let values = vec![fx(0.5), fx(0.25)];
    assert_eq!(combine(&values, &CombineOp::Sum), fx(0.75));
    assert_eq!(combine(&values, &CombineOp::Product), fx(0.125));
    let weights = vec![fx(2.0), fx(4.0)];
    assert_eq!(combine(&values, &CombineOp::WeightedSum(weights)), fx(2.0));
    let empty: Vec<i64> = Vec::new();
    assert_eq!(combine(&empty, &CombineOp::Sum), 0);
    assert_eq!(combine(&empty, &CombineOp::Product), FX_ONE);
}

#[test]
fn single_partial_is_silent_at_time_zero() {
    let bank = HarmonicOscillatorBank {
        terms: vec![HarmonicTerm { freq: fx(110.0), weight: FX_ONE }],
    };
    assert_eq!(bank.evaluate(0, FX_ONE), 0);
}

#[test]
fn full_bank_is_silent_at_time_zero() {
    let bank = guitar_bank();
    assert_eq!(bank.evaluate(0, FX_ONE), 0);
}

#[test]
fn sine_quarter_turn_is_near_one() {
    // One hertz sampled at four hertz: the second sample sits a quarter turn
    // into the cycle, where the sine is one. This fails if the sine were the
    // angle handed back unchanged (the angle there is about 1.57).
    let bank = HarmonicOscillatorBank {
        terms: vec![HarmonicTerm { freq: fx(1.0), weight: FX_ONE }],
    };
    let t = time_of_sample(1, 4);
    let v = to_f(bank.evaluate(t, FX_ONE));
    assert!((v - 1.0).abs() < 1e-3, "sine at quarter turn: {}", v);
}

#[test]
fn envelope_factor_matches_reference_exponential() {
    let env = DecayEnvelope::new(fx(2.0), 44100);
    let expected = (-2.0f64 / 44100.0).exp();
    let got = to_f(env.factor());
    assert!((got - expected).abs() < 1e-4, "factor {} vs {}", got, expected);
    // This fails if the exponential were the argument handed back unchanged:
    // that would clamp to zero here.
    let fast = DecayEnvelope::new(fx(2.0), 2);
    let expected_fast = (-1.0f64).exp();
    let got_fast = to_f(fast.factor());
    assert!((got_fast - expected_fast).abs() < 1e-3, "factor {} vs {}", got_fast, expected_fast);
}

#[test]
fn envelope_value_decays_strictly_while_positive() {
    let env = DecayEnvelope::from_factor(fx(0.5));
    assert_eq!(env.value_at(0), FX_ONE);
    assert_eq!(env.value_at(1), fx(0.5));
    assert_eq!(env.value_at(2), fx(0.25));
    let mut prev = env.value_at(0);
    for n in 1..40u64 {
        let v = env.value_at(n);
        if prev > 0 {
            assert!(v < prev, "envelope grew at step {}", n);
        } else {
            assert_eq!(v, 0);
        }
        prev = v;
    }
}

#[test]
fn envelope_step_matches_value_at() {
    let env = DecayEnvelope::new(fx(5.0), 100);
    let mut running = FX_ONE;
    for n in 0..50u64 {
        assert_eq!(running, env.value_at(n));
        running = env.step(running);
    }
}

#[test]
fn one_second_renders_exactly_the_sample_rate_in_samples() {
    let bank = HarmonicOscillatorBank {
        terms: vec![HarmonicTerm { freq: fx(110.0), weight: FX_ONE }],
    };
    let pcm = render_harmonics(&bank, None, 44100, 44100, FX_ONE);
    assert_eq!(pcm.len(), 44100);
    // The first sample is at time zero, where every partial is silent.
    assert_eq!(pcm[0], 0);
}

#[test]
fn sine_render_matches_reference_samples() {
    let bank = HarmonicOscillatorBank {
        terms: vec![HarmonicTerm { freq: fx(110.0), weight: FX_ONE }],
    };
    let pcm = render_harmonics(&bank, None, 64, 44100, FX_ONE);
    assert_eq!(pcm.len(), 64);
    for (n, &s) in pcm.iter().enumerate() {
        let t = n as f64 / 44100.0;
        let expected = (t * 110.0 * 2.0 * std::f64::consts::PI).sin() * 32767.0;
        assert!(
            (s as f64 - expected).abs() < 40.0,
            "sample {}: {} vs {}",
            n,
            s,
            expected
        );
    }
}

#[test]
fn guitar_render_matches_reference_samples() {
    let bank = guitar_bank();
    let env = DecayEnvelope::new(fx(2.0), 44100);
    let gain = fx(1.0 / 5.55);
    let pcm = render_harmonics(&bank, Some(&env), 256, 44100, gain);
    assert_eq!(pcm.len(), 256);
    let table = [
        (130.81, 0.7),
        (261.63, 0.53),
        (392.0, 0.3),
        (523.25, 0.053),
        (653.16, 0.03),
        (785.14, 0.012),
        (916.22, 0.037),
    ];
    for (n, &s) in pcm.iter().enumerate() {
        let t = n as f64 / 44100.0;
        let mut sum = 0.0f64;
        for &(f, w) in table.iter() {
            sum += w * (t * f * 2.0 * std::f64::consts::PI).sin();
        }
        let expected = (-2.0 * t).exp() * sum / 5.55 * 32767.0;
        assert!(
            (s as f64 - expected).abs() < 60.0,
            "sample {}: {} vs {}",
            n,
            s,
            expected
        );
    }
}

#[test]
fn series_carrier_render_has_requested_length() {
    let bank = guitar_bank();
    let env = DecayEnvelope::new(fx(2.0), 44100);
    let pcm = render_series_carrier(
        &bank,
        Some(&env),
        fx(30.0),
        1,
        100,
        64,
        44100,
        fx(1.0 / 5.55),
    );
    assert_eq!(pcm.len(), 64);
    // At time zero the harmonic factor is silent, so the product is too.
    assert_eq!(pcm[0], 0);
}
