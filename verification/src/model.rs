//! The mathematical model of a generator and of one step of it.

use vstd::prelude::*;
use crate::error::GeneratorError;
use crate::vocoder::Vocoder;

verus! {

/// A parameter sequence as a sequence of frames, each a sequence of values.
pub open spec fn frames_view<S>(frames: Vec<Vec<S>>) -> Seq<Seq<S>> {
    Seq::new(frames@.len(), |i: int| frames@[i]@)
}

/// Every log-F0 frame holds exactly one value.
pub open spec fn lf0_well_shaped<S>(lf0: Seq<Seq<S>>) -> bool {
    forall|i: int| 0 <= i < lf0.len() ==> (#[trigger] lf0[i]).len() == 1
}

/// Every low-pass filter frame holds an odd number of taps.
pub open spec fn lpf_well_shaped<S>(lpf: Seq<Seq<S>>) -> bool {
    forall|i: int| 0 <= i < lpf.len() ==> (#[trigger] lpf[i]).len() % 2 == 1
}

/// The frame at `index` of a parameter sequence, or the empty frame where the
/// sequence has none there.
pub open spec fn frame_at<S>(frames: Seq<Seq<S>>, index: int) -> Seq<S> {
    if 0 <= index < frames.len() {
        frames[index]
    } else {
        Seq::empty()
    }
}

/// What a generator is: its frame period, its vocoder, its three parameter
/// sequences and its cursor.
pub struct GeneratorState<S, V> {
    /// Samples per frame.
    pub fperiod: usize,
    /// The synthesis engine, with whatever it remembers of earlier frames.
    pub vocoder: V,
    /// Spectral envelope coefficients, frame by frame.
    pub spectrum: Seq<Seq<S>>,
    /// Log fundamental frequency, frame by frame.
    pub lf0: Seq<Seq<S>>,
    /// Low-pass filter taps, frame by frame.
    pub lpf: Seq<Seq<S>>,
    /// The index of the next frame to synthesize.
    pub next: nat,
}

impl<S, V: Vocoder<S>> GeneratorState<S, V> {
    /// The number of frames, which the log-F0 sequence alone decides.
    pub open spec fn frame_count(self) -> nat {
        self.lf0.len()
    }

    /// The frames not yet synthesized.
    pub open spec fn remaining(self) -> nat {
        (self.lf0.len() - self.next) as nat
    }

    /// No frame is left.
    pub open spec fn exhausted(self) -> bool {
        self.next >= self.lf0.len()
    }

    /// The frame period is positive, the parameter frames are well shaped and
    /// the cursor lies within the frames.
    pub open spec fn wf(self) -> bool {
        &&& self.fperiod > 0
        &&& lf0_well_shaped(self.lf0)
        &&& lpf_well_shaped(self.lpf)
        &&& self.next <= self.lf0.len()
    }

    /// The state of a generator that was just built from these parts.
    pub open spec fn fresh(
        fperiod: usize,
        vocoder: V,
        spectrum: Seq<Seq<S>>,
        lf0: Seq<Seq<S>>,
        lpf: Seq<Seq<S>>,
    ) -> Self {
        GeneratorState { fperiod, vocoder, spectrum, lf0, lpf, next: 0 }
    }

    /// What a step on a buffer of `buffer_len` samples reports: zero once the
    /// frames are exhausted; else a failure where the buffer cannot hold a
    /// frame; else the frame period.
    pub open spec fn step_result(self, buffer_len: nat) -> Result<usize, GeneratorError> {
        if self.exhausted() {
            Ok(0)
        } else if buffer_len < self.fperiod {
            Err(GeneratorError::BufferTooSmall)
        } else {
            Ok(self.fperiod)
        }
    }

    /// A step on a buffer of `buffer_len` samples synthesizes a frame.
    pub open spec fn step_synthesizes(self, buffer_len: nat) -> bool {
        !self.exhausted() && buffer_len >= self.fperiod
    }

    /// Relates a generator and a buffer before one step to both after it.
    ///
    /// A step that synthesizes no frame changes nothing. One that does moves
    /// the cursor on by one frame, keeps the parameters, leaves the buffer's
    /// tail beyond the first frame period as it was, and has the vocoder
    /// render the frame under the cursor into the buffer's head.
    pub open spec fn steps_to(self, after: Self, buffer: Seq<S>, written: Seq<S>) -> bool {
        if self.step_synthesizes(buffer.len()) {
            &&& after.fperiod == self.fperiod
            &&& after.spectrum == self.spectrum
            &&& after.lf0 == self.lf0
            &&& after.lpf == self.lpf
            &&& after.next == self.next + 1
            &&& written.len() == buffer.len()
            &&& written.subrange(self.fperiod as int, written.len() as int)
                == buffer.subrange(self.fperiod as int, buffer.len() as int)
            &&& self.vocoder.synthesized(
                &after.vocoder,
                self.lf0[self.next as int][0],
                frame_at(self.spectrum, self.next as int),
                frame_at(self.lpf, self.next as int),
                written.subrange(0, self.fperiod as int),
            )
        } else {
            after == self && written == buffer
        }
    }

    /// In a run over the remaining frames, the `k`-th of them was rendered
    /// into the `k`-th block of `samples`, by the vocoder as the frames before
    /// it had left it.
    pub open spec fn frame_rendered(self, vocoders: Seq<V>, samples: Seq<S>, k: int) -> bool {
        vocoders[k].synthesized(
            &vocoders[k + 1],
            self.lf0[self.next + k][0],
            frame_at(self.spectrum, self.next + k),
            frame_at(self.lpf, self.next + k),
            samples.subrange(k * self.fperiod, (k + 1) * self.fperiod),
        )
    }

    /// `samples` holds the remaining frames, one block of a frame period
    /// each, rendered in order by a vocoder that passed through `vocoders`.
    pub open spec fn renders_through(self, vocoders: Seq<V>, samples: Seq<S>) -> bool {
        &&& samples.len() == self.remaining() * self.fperiod
        &&& vocoders.len() == self.remaining() + 1
        &&& vocoders[0] == self.vocoder
        &&& forall|k: int|
            0 <= k < self.remaining() ==> #[trigger] self.frame_rendered(vocoders, samples, k)
    }

    /// `samples` is what synthesizing every remaining frame in order yields.
    pub open spec fn renders(self, samples: Seq<S>) -> bool {
        exists|vocoders: Seq<V>| self.renders_through(vocoders, samples)
    }
}

} // verus!
