//! The synthesis capability that the generator drives.

use vstd::prelude::*;

verus! {

/// A synthesis engine that renders one frame of waveform per call.
///
/// A vocoder may carry state from frame to frame (filter memory, excitation
/// phase). The generator calls it once per frame, in increasing frame order,
/// and learns of a call only what [`Vocoder::synthesized`] relates.
pub trait Vocoder<S> {
    /// Relates one call of [`Vocoder::synthesize`]: the engine before and
    /// after it, the frame's parameters, and the samples the call left in the
    /// output frame.
    ///
    /// An engine that does not say what it renders relates every call.
    open spec fn synthesized(
        &self,
        after: &Self,
        log_f0: S,
        spectrum: Seq<S>,
        lpf: Seq<S>,
        frame: Seq<S>,
    ) -> bool {
        true
    }

    /// Renders one frame from `log_f0`, `spectrum` and `lpf` into `output`,
    /// overwriting every sample of it.
    fn synthesize(&mut self, log_f0: S, spectrum: &[S], lpf: &[S], output: &mut [S])
        ensures
            final(output)@.len() == old(output)@.len(),
            old(self).synthesized(final(self), log_f0, spectrum@, lpf@, final(output)@),
    ;
}

/// A stateless vocoder that holds every sample of a frame at the frame's
/// log-F0 value and ignores the other parameters.
///
/// It stands in for a signal-processing engine wherever the generator is to
/// be observed on its own.
#[derive(Clone, Copy, Debug)]
pub struct HoldVocoder;

impl<S: Copy> Vocoder<S> for HoldVocoder {
    open spec fn synthesized(
        &self,
        after: &Self,
        log_f0: S,
        spectrum: Seq<S>,
        lpf: Seq<S>,
        frame: Seq<S>,
    ) -> bool {
        forall|i: int| 0 <= i < frame.len() ==> frame[i] == log_f0
    }

    fn synthesize(&mut self, log_f0: S, spectrum: &[S], lpf: &[S], output: &mut [S]) {
        let n: usize = output.len();
        let mut i: usize = 0;
        while i < n
            invariant
                i <= n,
                output@.len() == n,
                forall|j: int| 0 <= j < i ==> output@[j] == log_f0,
            decreases n - i,
        {
            output[i] = log_f0;
            i += 1;
        }
    }
}

} // verus!
