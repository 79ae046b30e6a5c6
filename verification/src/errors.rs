//! The error taxonomy of the synthesis and analysis pipelines.
use vstd::prelude::*;

verus! {

/// Why a pipeline stage refused its input.
#[derive(Debug, Clone, Copy, PartialEq, Eq, Structural)]
pub enum SynthError {
    /// The quantizer was asked for a container width it does not support.
    UnsupportedBitDepth,
    /// The spectral analyzer was given no samples, or more samples than the
    /// transform length can take.
    EmptyInput,
}

} // verus!
