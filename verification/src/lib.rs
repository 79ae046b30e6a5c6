//! Synthesis of short monophonic audio signals from closed-form expressions,
//! in saturating fixed-point arithmetic: a truncated alternating series gives
//! a Bessel-like carrier, a bank of weighted sine partials under an
//! exponential decay envelope gives the timbre, and the combined signal is
//! clamped and quantized to PCM. A spectral analyzer lays a recorded buffer
//! out as zero-padded transform input of a fixed bin count.

pub mod combiner;
pub mod envelope;
pub mod errors;
pub mod fx;
pub mod harmonics;
pub mod quantizer;
pub mod series;
pub mod spectral;
pub mod synth;
pub mod trig;
