//! The incremental, frame-stepping generator.

use vstd::prelude::*;
use crate::error::GeneratorError;
use crate::model::{frames_view, lf0_well_shaped, lpf_well_shaped, GeneratorState};
use crate::vocoder::Vocoder;

verus! {

/// Turns per-frame acoustic parameters into a waveform, one frame per step.
///
/// The generator owns its vocoder, its parameter sequences and a cursor that
/// only moves forward. It never keeps a buffer that a caller lends it.
pub struct SpeechGenerator<S, V> {
    fperiod: usize,
    vocoder: V,
    spectrum: Vec<Vec<S>>,
    lf0: Vec<Vec<S>>,
    lpf: Vec<Vec<S>>,
    next: usize,
}

impl<S, V> View for SpeechGenerator<S, V> {
    type V = GeneratorState<S, V>;

    closed spec fn view(&self) -> GeneratorState<S, V> {
        GeneratorState {
            fperiod: self.fperiod,
            vocoder: self.vocoder,
            spectrum: frames_view(self.spectrum),
            lf0: frames_view(self.lf0),
            lpf: frames_view(self.lpf),
            next: self.next as nat,
        }
    }
}

/// Whether every frame of `frames` holds exactly one value.
fn all_single<S>(frames: &Vec<Vec<S>>) -> (ok: bool)
    ensures
        ok == lf0_well_shaped(frames_view(*frames)),
{
    let mut i: usize = 0;
    while i < frames.len()
        invariant
            i <= frames.len(),
            forall|j: int| 0 <= j < i ==> (#[trigger] frames_view(*frames)[j]).len() == 1,
        decreases frames.len() - i,
    {
        if frames[i].len() != 1 {
            assert(frames_view(*frames)[i as int].len() != 1);
            return false;
        }
        i += 1;
    }
    true
}

/// Whether every frame of `frames` holds an odd number of values.
fn all_odd<S>(frames: &Vec<Vec<S>>) -> (ok: bool)
    ensures
        ok == lpf_well_shaped(frames_view(*frames)),
{
    let mut i: usize = 0;
    while i < frames.len()
        invariant
            i <= frames.len(),
            forall|j: int| 0 <= j < i ==> (#[trigger] frames_view(*frames)[j]).len() % 2 == 1,
        decreases frames.len() - i,
    {
        if frames[i].len() % 2 == 0 {
            assert(frames_view(*frames)[i as int].len() % 2 != 1);
            return false;
        }
        i += 1;
    }
    true
}

impl<S: Copy, V: Vocoder<S>> SpeechGenerator<S, V> {
    /// The generator's state is well formed.
    pub open spec fn wf(&self) -> bool {
        self@.wf()
    }

    /// Builds a generator at its first frame, for a positive frame period.
    ///
    /// The parts are refused exactly when a log-F0 frame does not hold one
    /// value or a low-pass filter frame holds an even number of taps; empty
    /// sequences pass. The lengths of the three sequences are not compared:
    /// the log-F0 sequence alone counts the frames, and a frame that the
    /// spectrum or the filter sequence lacks reaches the vocoder empty.
    pub fn new(
        fperiod: usize,
        vocoder: V,
        spectrum: Vec<Vec<S>>,
        lf0: Vec<Vec<S>>,
        lpf: Vec<Vec<S>>,
    ) -> (result: Result<Self, GeneratorError>)
        requires
            fperiod > 0,
        ensures
            result is Ok <==> lf0_well_shaped(frames_view(lf0)) && lpf_well_shaped(
                frames_view(lpf),
            ),
            result matches Ok(generator) ==> generator.wf() && generator@
                == GeneratorState::fresh(
                fperiod,
                vocoder,
                frames_view(spectrum),
                frames_view(lf0),
                frames_view(lpf),
            ),
            result matches Err(error) ==> error == GeneratorError::InvalidParameterShape,
    {
        if !all_single(&lf0) {
            return Err(GeneratorError::InvalidParameterShape);
        }
        if !all_odd(&lpf) {
            return Err(GeneratorError::InvalidParameterShape);
        }
        Ok(SpeechGenerator { fperiod, vocoder, spectrum, lf0, lpf, next: 0 })
    }

    /// The number of samples in a frame.
    pub fn fperiod(&self) -> (period: usize)
        ensures
            period == self@.fperiod,
    {
        self.fperiod
    }

    /// The number of frames in all, synthesized or not.
    pub fn frame_count(&self) -> (frames: usize)
        ensures
            frames == self@.frame_count(),
    {
        self.lf0.len()
    }

    /// The number of frames synthesized so far.
    pub fn synthesized_frames(&self) -> (frames: usize)
        ensures
            frames == self@.next,
    {
        self.next
    }

    /// Synthesizes the frame under the cursor into the head of `output`.
    ///
    /// Once every frame is synthesized a step reports zero and changes
    /// nothing, whatever the buffer. While frames remain, a buffer shorter
    /// than a frame is refused and nothing changes. Otherwise the vocoder
    /// renders the frame into the first frame period of `output`, the rest of
    /// `output` stays as it was, the cursor moves on by one and the step
    /// reports the frame period.
    pub fn generate_step(&mut self, output: &mut [S]) -> (result: Result<usize, GeneratorError>)
        requires
            old(self).wf(),
        ensures
            final(self).wf(),
            result == old(self)@.step_result(old(output)@.len()),
            old(self)@.steps_to(final(self)@, old(output)@, final(output)@),
    {
        if self.lf0.len() <= self.next {
            return Ok(0);
        }
        if output.len() < self.fperiod {
            return Err(GeneratorError::BufferTooSmall);
        }
        let index: usize = self.next;
        let absent: Vec<S> = Vec::new();
        assert(self@.lf0[index as int] == self.lf0@[index as int]@);
        let log_f0: S = self.lf0[index][0];
        let spectrum: &[S] = if index < self.spectrum.len() {
            self.spectrum[index].as_slice()
        } else {
            absent.as_slice()
        };
        let lpf: &[S] = if index < self.lpf.len() {
            self.lpf[index].as_slice()
        } else {
            absent.as_slice()
        };
        let (frame, rest) = output.split_at_mut(self.fperiod);
        self.vocoder.synthesize(log_f0, spectrum, lpf, frame);
        self.next = index + 1;
        assert(final(output)@.subrange(0, self.fperiod as int) == frame@);
        assert(final(output)@.subrange(self.fperiod as int, final(output)@.len() as int) == rest@);
        Ok(self.fperiod)
    }

    /// Synthesizes every remaining frame into a buffer of its own.
    ///
    /// The buffer holds one frame period of samples for each remaining frame,
    /// in frame order, and is empty where no frame remains. Each block is
    /// what the vocoder rendered for its frame, called once per frame.
    pub fn generate_all(self) -> (samples: Vec<S>) where S: Default
        requires
            self.wf(),
            self@.remaining() * self@.fperiod <= usize::MAX,
        ensures
            samples@.len() == self@.remaining() * self@.fperiod,
            self@.renders(samples@),
    {
        let ghost initial = self@;
        let mut generator = self;
        let ghost mut vocoders: Seq<V> = seq![generator.vocoder];
        let start: usize = generator.next;
        let total: usize = (generator.lf0.len() - start) * generator.fperiod;
        let mut samples: Vec<S> = vec![S::default(); total];
        let mut produced: usize = generator.fperiod;
        while produced > 0
            invariant
                generator.wf(),
                generator@.fperiod == initial.fperiod,
                generator@.spectrum == initial.spectrum,
                generator@.lf0 == initial.lf0,
                generator@.lpf == initial.lpf,
                initial.next == start,
                start <= generator.next,
                total == initial.remaining() * initial.fperiod,
                samples@.len() == total,
                produced == 0 ==> generator@.exhausted(),
                vocoders.len() == generator.next - start + 1,
                vocoders[0] == initial.vocoder,
                vocoders.last() == generator@.vocoder,
                forall|k: int|
                    0 <= k < generator.next - start ==> #[trigger] initial.frame_rendered(
                        vocoders,
                        samples@,
                        k,
                    ),
            decreases generator@.remaining() + (if produced > 0 { 1nat } else { 0nat }),
        {
            let ghost earlier = samples@;
            let ghost done: int = generator.next - start;
            proof {
                lemma_block_bounds(done, initial.remaining() as int, initial.fperiod as int);
            }
            let offset: usize = (generator.next - start) * generator.fperiod;
            let (_settled, rest) = samples.as_mut_slice().split_at_mut(offset);
            let result = generator.generate_step(rest);
            // The rest of the buffer holds every remaining frame, so no step is refused.
            produced = match result {
                Ok(count) => count,
                Err(_) => unreached(),
            };
            proof {
                if produced > 0 {
                    let ghost prior = vocoders;
                    vocoders = prior.push(generator.vocoder);
                    assert forall|k: int| 0 <= k < done + 1 implies #[trigger] initial.frame_rendered(
                        vocoders,
                        samples@,
                        k,
                    ) by {
                        lemma_block_bounds(k, done + 1, initial.fperiod as int);
                        if k < done {
                            lemma_block_bounds(k + 1, done + 1, initial.fperiod as int);
                            assert(initial.frame_rendered(prior, earlier, k));
                            assert(samples@.subrange(
                                k * initial.fperiod,
                                (k + 1) * initial.fperiod,
                            ) == earlier.subrange(k * initial.fperiod, (k + 1) * initial.fperiod));
                        } else {
                            assert(samples@.subrange(
                                k * initial.fperiod,
                                (k + 1) * initial.fperiod,
                            ) == final(rest)@.subrange(0, initial.fperiod as int));
                        }
                    }
                } else {
                    assert(samples@ == earlier);
                }
            }
        }
        assert(initial.renders_through(vocoders, samples@));
        samples
    }
}

/// Blocks of `period` samples laid end to end: block `k` of `count` ends where
/// the next begins, and within the `count` blocks.
proof fn lemma_block_bounds(k: int, count: int, period: int)
    requires
        0 <= k <= count,
        0 <= period,
    ensures
        0 <= k * period <= count * period,
        (k + 1) * period == k * period + period,
        k < count ==> (k + 1) * period <= count * period,
{
    assert(0 <= k * period <= count * period) by (nonlinear_arith)
        requires
            0 <= k <= count,
            0 <= period,
    ;
    assert((k + 1) * period == k * period + period) by (nonlinear_arith);
    if k < count {
        assert((k + 1) * period <= count * period) by (nonlinear_arith)
            requires
                0 <= k + 1 <= count,
                0 <= period,
        ;
    }
}

} // verus!
