//! SpectralAnalyzer: turns a recorded PCM buffer into the input of a
//! fixed-length forward discrete Fourier transform. The validation and the
//! zero padding are the analyzer's own logic; the transform itself runs on
//! floating-point complex numbers and is applied by the container layer,
//! which preserves the bin count prepared here.
use vstd::prelude::*;

use crate::errors::SynthError;
use crate::fx::FX_ONE;

verus! {

/// One transform slot: a complex value with fixed-point parts.
#[derive(Clone, Copy, Debug, PartialEq, Eq, Structural)]
pub struct ComplexSample {
    pub re: i64,
    pub im: i64,
}

/// A forward transform of one fixed length.
pub struct SpectralAnalyzer {
    pub transform_len: usize,
}

impl SpectralAnalyzer {
    /// Lay out the recorded samples as complex transform input: each sample
    /// becomes a real value with zero imaginary part, and the buffer is
    /// zero-padded to exactly the transform length, never truncated. Fails
    /// exactly when there are no samples or more samples than the transform
    /// can take.
    pub fn prepare_input(&self, samples: &Vec<i16>) -> (r: Result<
        Vec<ComplexSample>,
        SynthError,
    >)
        ensures
            r is Ok <==> (1 <= samples@.len() <= self.transform_len as int),
            r matches Ok(v) ==> v@.len() == self.transform_len as int,
            r matches Ok(v) ==> forall|i: int|
                0 <= i < samples@.len() ==> (#[trigger] v@[i]).re == samples@[i] as int * (
                FX_ONE as int) && v@[i].im == 0,
            r matches Ok(v) ==> forall|i: int|
                samples@.len() <= i < v@.len() ==> (#[trigger] v@[i]).re == 0 && v@[i].im == 0,
            r matches Err(e) ==> e == SynthError::EmptyInput,
    {
        if samples.len() == 0 || samples.len() > self.transform_len {
            return Err(SynthError::EmptyInput);
        }
        let mut out: Vec<ComplexSample> = Vec::new();
        let mut i: usize = 0;
        while i < samples.len()
            invariant
                i <= samples@.len(),
                out@.len() == i,
                forall|j: int|
                    0 <= j < i ==> (#[trigger] out@[j]).re == samples@[j] as int * (FX_ONE as int)
                        && out@[j].im == 0,
            decreases samples@.len() - i,
        {
            let s: i64 = samples[i] as i64;
            out.push(ComplexSample { re: s * FX_ONE, im: 0 });
            i = i + 1;
        }
        while out.len() < self.transform_len
            invariant
                samples@.len() <= out@.len() <= self.transform_len as int,
                forall|j: int|
                    0 <= j < samples@.len() ==> (#[trigger] out@[j]).re == samples@[j] as int * (
                    FX_ONE as int) && out@[j].im == 0,
                forall|j: int|
                    samples@.len() <= j < out@.len() ==> (#[trigger] out@[j]).re == 0
                        && out@[j].im == 0,
            decreases self.transform_len as int - out@.len(),
        {
            out.push(ComplexSample { re: 0, im: 0 });
        }
        Ok(out)
    }
}

} // verus!
