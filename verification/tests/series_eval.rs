use wavesynth::errors::SynthError;
use wavesynth::fx::FX_ONE;
use wavesynth::quantizer::quantize;
use wavesynth::series::evaluate;

fn fx(v: f64) -> i64 {
    (v * 4294967296.0f64).round() as i64
}

fn to_f(v: i64) -> f64 {
    v as f64 / 4294967296.0f64
}

#[test]
fn series_at_zero_order_zero_is_one() {
    assert_eq!(evaluate(0, 0, 5), FX_ONE);
}

#[test]
fn series_at_zero_positive_order_is_zero() {
    assert_eq!(evaluate(0, 1, 100), 0);
    assert_eq!(evaluate(0, 3, 7), 0);
}

#[test]
fn series_no_terms_is_zero() {
    assert_eq!(evaluate(fx(1.0), 1, 0), 0);
}

#[test]
fn series_repeated_calls_agree() {
    let x = fx(2.5);
    let first = evaluate(x, 1, 40);
    let second = evaluate(x, 1, 40);
    let third = evaluate(x, 1, 40);
    assert_eq!(first, second);
    assert_eq!(second, third);
}

#[test]
fn series_matches_reference_sum_small_argument() {
    // The truncated sum computed in double precision, for order one:
    // sum of (-1)^m / (m! * (m+1)!) * (x/2)^(2m+1).
    for &xv in &[0.25f64, 0.5, 1.0, 2.0] {
        let mut expected = 0.0f64;
        let h = xv / 2.0;
        for m in 0..20u32 {
            let mut f1 = 1.0f64;
            let mut f2 = 1.0f64;
            for i in 1..=m {
                f1 *= i as f64;
            }
            for i in 1..=(m + 1) {
                f2 *= i as f64;
            }
            let sign = if m % 2 == 0 { 1.0 } else { -1.0 };
            expected += sign / (f1 * f2) * h.powi(2 * m as i32 + 1);
        }
        let got = to_f(evaluate(fx(xv), 1, 20));
        assert!(
            (got - expected).abs() < 1e-4,
            "x={} got={} expected={}",
            xv,
            got,
            expected
        );
    }
}

#[test]
fn quantize_extremes_are_symmetric() {
    assert_eq!(quantize(FX_ONE, 16), Ok(32767));
    assert_eq!(quantize(-FX_ONE, 16), Ok(-32767));
}

#[test]
fn quantize_zero_and_half() {
    assert_eq!(quantize(0, 16), Ok(0));
    // Truncation toward zero: half of 32767 is 16383.5, so both signs give
    // magnitude 16383.
    assert_eq!(quantize(fx(0.5), 16), Ok(16383));
    assert_eq!(quantize(fx(-0.5), 16), Ok(-16383));
}

#[test]
fn quantize_in_range_inputs_stay_in_sixteen_bit_range() {
    let mut v = -4294967296i64;
    while v <= 4294967296i64 {
        let q = quantize(v, 16).unwrap();
        assert!((-32768..=32767).contains(&q));
        v += 12345678;
    }
}

#[test]
fn quantize_clamps_out_of_range_input() {
    assert_eq!(quantize(3 * FX_ONE, 16), Ok(32767));
    assert_eq!(quantize(-3 * FX_ONE, 16), Ok(-32768));
}

#[test]
fn quantize_supported_widths() {
    assert_eq!(quantize(FX_ONE, 8), Ok(127));
    assert_eq!(quantize(FX_ONE, 24), Ok(8388607));
    assert_eq!(quantize(FX_ONE, 32), Ok(2147483647));
}

#[test]
fn quantize_rejects_unsupported_widths() {
    assert_eq!(quantize(FX_ONE, 12), Err(SynthError::UnsupportedBitDepth));
    assert_eq!(quantize(0, 0), Err(SynthError::UnsupportedBitDepth));
    assert_eq!(quantize(0, 64), Err(SynthError::UnsupportedBitDepth));
}
