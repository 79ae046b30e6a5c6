use rustfft::num_complex::Complex;
use rustfft::FftPlanner;
use wavesynth::errors::SynthError;
use wavesynth::spectral::SpectralAnalyzer;

fn to_f(v: i64) -> f64 {
    v as f64 / 4294967296.0f64
}

fn run_transform(analyzer: &SpectralAnalyzer, samples: &Vec<i16>) -> Vec<Complex<f32>> {
    let prepared = analyzer.prepare_input(samples).unwrap();
    let mut buffer: Vec<Complex<f32>> = prepared
        .iter()
        .map(|c| Complex::new(to_f(c.re) as f32, to_f(c.im) as f32))
        .collect();
    let mut planner = FftPlanner::new();
    let fft = planner.plan_fft_forward(buffer.len());
    fft.process(&mut buffer);
    buffer
}

#[test]
fn prepare_rejects_empty_input() {
    let analyzer = SpectralAnalyzer { transform_len: 8 };
    let empty: Vec<i16> = Vec::new();
    assert_eq!(analyzer.prepare_input(&empty), Err(SynthError::EmptyInput));
}

#[test]
fn prepare_rejects_more_samples_than_the_transform_takes() {
    let analyzer = SpectralAnalyzer { transform_len: 2 };
    let samples: Vec<i16> = vec![1, 2, 3];
    assert_eq!(analyzer.prepare_input(&samples), Err(SynthError::EmptyInput));
}

#[test]
fn prepare_zero_pads_to_the_transform_length() {
    let analyzer = SpectralAnalyzer { transform_len: 8 };
    let samples: Vec<i16> = vec![3, -2, 1];
    let prepared = analyzer.prepare_input(&samples).unwrap();
    assert_eq!(prepared.len(), 8);
    for (i, c) in prepared.iter().enumerate() {
        if i < samples.len() {
            assert_eq!(c.re, (samples[i] as i64) << 32);
        } else {
            assert_eq!(c.re, 0);
        }
        assert_eq!(c.im, 0);
    }
}

#[test]
fn bin_count_equals_transform_length_for_any_shorter_input() {
    for len in 1..=16usize {
        let analyzer = SpectralAnalyzer { transform_len: 16 };
        let samples: Vec<i16> = vec![7; len];
        let bins = run_transform(&analyzer, &samples);
        assert_eq!(bins.len(), 16);
    }
}

#[test]
fn zero_samples_give_zero_bins() {
    let analyzer = SpectralAnalyzer { transform_len: 4 };
    let samples: Vec<i16> = vec![0, 0, 0, 0];
    let bins = run_transform(&analyzer, &samples);
    assert_eq!(bins.len(), 4);
    for b in bins.iter() {
        assert_eq!(b.re, 0.0);
        assert_eq!(b.im, 0.0);
    }
}

#[test]
fn constant_signal_concentrates_in_the_zero_bin() {
    let analyzer = SpectralAnalyzer { transform_len: 4 };
    let samples: Vec<i16> = vec![1, 1, 1, 1];
    let bins = run_transform(&analyzer, &samples);
    assert!((bins[0].re - 4.0).abs() < 1e-5);
    for b in bins.iter().skip(1) {
        assert!(b.re.abs() < 1e-5 && b.im.abs() < 1e-5);
    }
}
