//! What holds of every run of steps, proved from the model of one step.

use vstd::prelude::*;
use crate::error::GeneratorError;
use crate::model::GeneratorState;
use crate::vocoder::{HoldVocoder, Vocoder};

verus! {

/// The `k`-th step of a run takes `states[k]` and `buffers[k]` to
/// `states[k + 1]` and `written[k]`.
pub open spec fn step_at<S, V: Vocoder<S>>(
    states: Seq<GeneratorState<S, V>>,
    buffers: Seq<Seq<S>>,
    written: Seq<Seq<S>>,
    k: int,
) -> bool {
    states[k].steps_to(states[k + 1], buffers[k], written[k])
}

/// A run of successive steps on one generator: `states` holds the generator
/// before the first step and after each step, `buffers` the buffer lent to
/// each step and `written` that buffer as the step left it.
pub open spec fn is_run<S, V: Vocoder<S>>(
    states: Seq<GeneratorState<S, V>>,
    buffers: Seq<Seq<S>>,
    written: Seq<Seq<S>>,
) -> bool {
    &&& states.len() == buffers.len() + 1
    &&& written.len() == buffers.len()
    &&& states[0].wf()
    &&& forall|k: int| 0 <= k < buffers.len() ==> #[trigger] step_at(states, buffers, written, k)
}

/// What the `k`-th step of a run reports.
pub open spec fn report_at<S, V: Vocoder<S>>(
    states: Seq<GeneratorState<S, V>>,
    buffers: Seq<Seq<S>>,
    k: int,
) -> Result<usize, GeneratorError> {
    states[k].step_result(buffers[k].len())
}

/// One step keeps a generator well formed, keeps its frame period and its
/// parameters, and moves its cursor forward by one frame or not at all.
pub proof fn lemma_step_moves_forward<S, V: Vocoder<S>>(
    before: GeneratorState<S, V>,
    after: GeneratorState<S, V>,
    buffer: Seq<S>,
    written: Seq<S>,
)
    requires
        before.wf(),
        before.steps_to(after, buffer, written),
    ensures
        after.wf(),
        after.fperiod == before.fperiod,
        after.spectrum == before.spectrum,
        after.lf0 == before.lf0,
        after.lpf == before.lpf,
        after.next == before.next || after.next == before.next + 1,
        after.next == before.next + 1 <==> before.step_result(buffer.len()) == Ok::<
            usize,
            GeneratorError,
        >(before.fperiod),
        before.exhausted() ==> after.exhausted(),
{
}

/// Throughout a run the generator stays well formed, its frame period and
/// its log-F0 sequence stay what they were, and its cursor never moves back.
pub proof fn lemma_run_keeps_shape<S, V: Vocoder<S>>(
    states: Seq<GeneratorState<S, V>>,
    buffers: Seq<Seq<S>>,
    written: Seq<Seq<S>>,
    k: int,
)
    requires
        is_run(states, buffers, written),
        0 <= k <= buffers.len(),
    ensures
        states[k].wf(),
        states[k].fperiod == states[0].fperiod,
        states[k].lf0 == states[0].lf0,
        states[0].next <= states[k].next <= states[0].next + k,
    decreases k,
{
    if k > 0 {
        lemma_run_keeps_shape(states, buffers, written, k - 1);
        assert(step_at(states, buffers, written, k - 1));
        lemma_step_moves_forward(states[k - 1], states[k], buffers[k - 1], written[k - 1]);
    }
}

/// In a run from the first frame on buffers that each hold a frame, the
/// cursor after `k` steps is `k`, until it stops at the frame count.
proof fn lemma_run_cursor<S, V: Vocoder<S>>(
    states: Seq<GeneratorState<S, V>>,
    buffers: Seq<Seq<S>>,
    written: Seq<Seq<S>>,
    k: int,
)
    requires
        is_run(states, buffers, written),
        states[0].next == 0,
        forall|j: int| 0 <= j < buffers.len() ==> (#[trigger] buffers[j]).len() >= states[0].fperiod,
        0 <= k <= buffers.len(),
    ensures
        states[k].next == if k < states[0].frame_count() {
            k as nat
        } else {
            states[0].frame_count()
        },
    decreases k,
{
    lemma_run_keeps_shape(states, buffers, written, k);
    if k > 0 {
        lemma_run_cursor(states, buffers, written, k - 1);
        lemma_run_keeps_shape(states, buffers, written, k - 1);
        assert(step_at(states, buffers, written, k - 1));
        assert(buffers[k - 1].len() >= states[0].fperiod);
    }
}

/// Frame-count conservation: a generator of `N` frames that is stepped from
/// its first frame, on buffers that each hold a frame, reports the frame
/// period, which is not zero, on each of its first `N` steps and zero on
/// every step after them.
pub proof fn lemma_frame_count_conservation<S, V: Vocoder<S>>(
    states: Seq<GeneratorState<S, V>>,
    buffers: Seq<Seq<S>>,
    written: Seq<Seq<S>>,
)
    requires
        is_run(states, buffers, written),
        states[0].next == 0,
        forall|j: int| 0 <= j < buffers.len() ==> (#[trigger] buffers[j]).len() >= states[0].fperiod,
    ensures
        states[0].fperiod > 0,
        forall|k: int|
            0 <= k < buffers.len() && k < states[0].frame_count() ==> #[trigger] report_at(
                states,
                buffers,
                k,
            ) == Ok::<usize, GeneratorError>(states[0].fperiod),
        forall|k: int|
            states[0].frame_count() <= k < buffers.len() ==> #[trigger] report_at(
                states,
                buffers,
                k,
            ) == Ok::<usize, GeneratorError>(0),
{
    assert forall|k: int| 0 <= k < buffers.len() implies #[trigger] report_at(states, buffers, k)
        == Ok::<usize, GeneratorError>(
        if k < states[0].frame_count() {
            states[0].fperiod
        } else {
            0
        },
    ) by {
        lemma_run_cursor(states, buffers, written, k);
        lemma_run_keeps_shape(states, buffers, written, k);
        assert(buffers[k].len() >= states[0].fperiod);
    }
}

/// Exhaustion is stable: once a step of a run reports zero, every later step
/// reports zero as well, whatever buffer it is lent, and leaves that buffer
/// and the generator as they were.
pub proof fn lemma_exhaustion_is_stable<S, V: Vocoder<S>>(
    states: Seq<GeneratorState<S, V>>,
    buffers: Seq<Seq<S>>,
    written: Seq<Seq<S>>,
    first: int,
    later: int,
)
    requires
        is_run(states, buffers, written),
        0 <= first <= later < buffers.len(),
        report_at(states, buffers, first) == Ok::<usize, GeneratorError>(0),
    ensures
        report_at(states, buffers, later) == Ok::<usize, GeneratorError>(0),
        written[later] == buffers[later],
        states[later + 1] == states[later],
        states[later] == states[first],
    decreases later - first,
{
    lemma_run_keeps_shape(states, buffers, written, first);
    assert(states[first].exhausted());
    if later > first {
        lemma_exhaustion_is_stable(states, buffers, written, first, later - 1);
        assert(step_at(states, buffers, written, later - 1));
    }
    assert(step_at(states, buffers, written, later));
}

/// A short buffer is refused: while frames remain, a step on a buffer
/// shorter than the frame period reports `BufferTooSmall`, wherever the
/// cursor stands, and changes neither the generator nor the buffer.
pub proof fn lemma_short_buffer_is_refused<S, V: Vocoder<S>>(
    before: GeneratorState<S, V>,
    after: GeneratorState<S, V>,
    buffer: Seq<S>,
    written: Seq<S>,
)
    requires
        !before.exhausted(),
        buffer.len() < before.fperiod,
        before.steps_to(after, buffer, written),
    ensures
        before.step_result(buffer.len()) == Err::<usize, GeneratorError>(
            GeneratorError::BufferTooSmall,
        ),
        after == before,
        written == buffer,
{
}

/// With the hold vocoder, synthesizing every remaining frame yields, for
/// each of them in order, one frame period of samples that all equal the
/// frame's log-F0 value.
pub proof fn lemma_hold_vocoder_repeats_log_f0<S: Copy>(
    state: GeneratorState<S, HoldVocoder>,
    samples: Seq<S>,
    i: int,
)
    requires
        state.wf(),
        state.renders(samples),
        0 <= i < samples.len(),
    ensures
        0 <= i / (state.fperiod as int) < state.remaining(),
        samples[i] == state.lf0[state.next + i / (state.fperiod as int)][0],
{
    let period = state.fperiod as int;
    let count = state.remaining() as int;
    let k = i / period;
    let vocoders = choose|vocoders: Seq<HoldVocoder>| state.renders_through(vocoders, samples);
    assert(i == period * k + i % period && 0 <= i % period < period) by {
        vstd::arithmetic::div_mod::lemma_fundamental_div_mod(i, period);
        vstd::arithmetic::div_mod::lemma_mod_bound(i, period);
    }
    assert(0 <= k < count) by (nonlinear_arith)
        requires
            i == period * k + i % period,
            0 <= i % period < period,
            0 <= i < count * period,
            0 < period,
    ;
    assert(k * period == period * k && (k + 1) * period == period * k + period
        && (k + 1) * period <= count * period) by (nonlinear_arith)
        requires
            0 <= k < count,
            0 < period,
    ;
    assert(state.frame_rendered(vocoders, samples, k));
    let block = samples.subrange(k * period, (k + 1) * period);
    assert(block[i - k * period] == samples[i]);
}

} // verus!
