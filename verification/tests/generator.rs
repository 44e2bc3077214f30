use std::cell::RefCell;
use std::rc::Rc;

use speech_generator::{GeneratorError, HoldVocoder, SpeechGenerator, Vocoder};

/// Fills each frame with its log-F0 value.
struct FillVocoder;

impl Vocoder<f64> for FillVocoder {
    fn synthesize(&mut self, log_f0: f64, _spectrum: &[f64], _lpf: &[f64], output: &mut [f64]) {
        for sample in output.iter_mut() {
            *sample = log_f0;
        }
    }
}

/// One recorded call: log-F0, spectrum, filter taps and the frame length.
type Call = (f64, Vec<f64>, Vec<f64>, usize);

/// Records every call and writes the call's number into the frame.
struct Recorder {
    calls: Rc<RefCell<Vec<Call>>>,
}

impl Vocoder<f64> for Recorder {
    fn synthesize(&mut self, log_f0: f64, spectrum: &[f64], lpf: &[f64], output: &mut [f64]) {
        let mut calls = self.calls.borrow_mut();
        calls.push((log_f0, spectrum.to_vec(), lpf.to_vec(), output.len()));
        let number = calls.len() as f64;
        for sample in output.iter_mut() {
            *sample = number;
        }
    }
}

fn frames(count: usize, frame: &[f64]) -> Vec<Vec<f64>> {
    (0..count).map(|_| frame.to_vec()).collect()
}

fn filled(count: usize) -> SpeechGenerator<f64, FillVocoder> {
    let lf0: Vec<Vec<f64>> = (0..count).map(|i| vec![i as f64 + 1.0]).collect();
    SpeechGenerator::new(4, FillVocoder, frames(count, &[0.5, 0.25]), lf0, frames(count, &[1.0]))
        .unwrap()
}

#[test]
fn two_frames_in_bulk_hold_log_f0() {
    let generator = SpeechGenerator::new(
        80,
        FillVocoder,
        vec![vec![0.1, 0.2], vec![0.1, 0.2]],
        vec![vec![5.0], vec![5.0]],
        Vec::new(),
    )
    .unwrap();
    let samples = generator.generate_all();
    assert_eq!(samples.len(), 160);
    assert!(samples[..80].iter().all(|&s| s == 5.0));
    assert!(samples[80..].iter().all(|&s| s == 5.0));
}

#[test]
fn two_frames_step_by_step() {
    let mut generator = SpeechGenerator::new(
        80,
        FillVocoder,
        vec![vec![0.1, 0.2], vec![0.1, 0.2]],
        vec![vec![5.0], vec![5.0]],
        Vec::new(),
    )
    .unwrap();
    let mut buffer = vec![0.0; 80];
    assert_eq!(generator.generate_step(&mut buffer), Ok(80));
    assert_eq!(buffer, vec![5.0; 80]);
    assert_eq!(generator.generate_step(&mut buffer), Ok(80));
    assert_eq!(generator.generate_step(&mut buffer), Ok(0));
}

#[test]
fn hold_vocoder_in_bulk() {
    let generator = SpeechGenerator::new(
        3,
        HoldVocoder,
        vec![vec![0.1], vec![0.2]],
        vec![vec![2.5], vec![-1.0]],
        Vec::new(),
    )
    .unwrap();
    assert_eq!(generator.generate_all(), vec![2.5, 2.5, 2.5, -1.0, -1.0, -1.0]);
}

#[test]
fn every_frame_steps_once_then_zero() {
    for count in 0..6 {
        let mut generator = filled(count);
        assert_eq!(generator.frame_count(), count);
        let mut buffer = vec![0.0; 4];
        for done in 0..count {
            assert_eq!(generator.synthesized_frames(), done);
            assert_eq!(generator.generate_step(&mut buffer), Ok(4));
            assert_eq!(buffer, vec![done as f64 + 1.0; 4]);
        }
        assert_eq!(generator.synthesized_frames(), count);
        assert_eq!(generator.generate_step(&mut buffer), Ok(0));
        assert_eq!(generator.synthesized_frames(), count);
    }
}

#[test]
fn exhausted_steps_change_nothing() {
    let mut generator = filled(1);
    let mut buffer = vec![0.0; 4];
    assert_eq!(generator.generate_step(&mut buffer), Ok(4));
    let mut other = vec![9.0, 8.0, 7.0, 6.0, 5.0];
    for _ in 0..5 {
        assert_eq!(generator.generate_step(&mut other), Ok(0));
        assert_eq!(other, vec![9.0, 8.0, 7.0, 6.0, 5.0]);
        assert_eq!(generator.synthesized_frames(), 1);
    }
}

#[test]
fn exhausted_step_accepts_any_buffer() {
    let mut generator = filled(0);
    let mut empty: Vec<f64> = Vec::new();
    assert_eq!(generator.generate_step(&mut empty), Ok(0));
    let mut short = vec![3.0];
    assert_eq!(generator.generate_step(&mut short), Ok(0));
    assert_eq!(short, vec![3.0]);
}

#[test]
fn bulk_length_from_any_cursor() {
    for count in 0..5 {
        for done in 0..=count {
            let mut generator = filled(count);
            let mut buffer = vec![0.0; 4];
            for _ in 0..done {
                assert_eq!(generator.generate_step(&mut buffer), Ok(4));
            }
            let samples = generator.generate_all();
            assert_eq!(samples.len(), (count - done) * 4);
            for (i, sample) in samples.iter().enumerate() {
                assert_eq!(*sample, (done + i / 4) as f64 + 1.0);
            }
        }
    }
}

#[test]
fn bulk_of_no_frames_is_empty() {
    let generator: SpeechGenerator<f64, FillVocoder> =
        SpeechGenerator::new(80, FillVocoder, Vec::new(), Vec::new(), Vec::new()).unwrap();
    assert_eq!(generator.generate_all(), Vec::<f64>::new());
}

#[test]
fn bulk_after_exhaustion_is_empty() {
    let mut generator = filled(2);
    let mut buffer = vec![0.0; 4];
    while generator.generate_step(&mut buffer) != Ok(0) {}
    assert_eq!(generator.generate_all(), Vec::<f64>::new());
}

#[test]
fn wide_lf0_frame_is_refused() {
    let result = SpeechGenerator::new(
        4,
        FillVocoder,
        frames(2, &[0.5]),
        vec![vec![5.0], vec![5.0, 6.0]],
        frames(2, &[1.0]),
    );
    assert_eq!(result.err(), Some(GeneratorError::InvalidParameterShape));
}

#[test]
fn empty_lf0_frame_is_refused() {
    let result =
        SpeechGenerator::new(4, FillVocoder, frames(1, &[0.5]), vec![Vec::new()], Vec::new());
    assert_eq!(result.err(), Some(GeneratorError::InvalidParameterShape));
}

#[test]
fn first_lf0_frame_is_checked() {
    let result = SpeechGenerator::new(
        4,
        FillVocoder,
        frames(2, &[0.5]),
        vec![vec![5.0, 6.0], vec![5.0]],
        Vec::new(),
    );
    assert_eq!(result.err(), Some(GeneratorError::InvalidParameterShape));
}

#[test]
fn even_lpf_frame_is_refused() {
    let result = SpeechGenerator::new(
        4,
        FillVocoder,
        frames(2, &[0.5]),
        frames(2, &[5.0]),
        vec![vec![1.0, 2.0, 1.0], vec![1.0, 1.0]],
    );
    assert_eq!(result.err(), Some(GeneratorError::InvalidParameterShape));
}

#[test]
fn empty_lpf_frame_is_refused() {
    let result = SpeechGenerator::new(
        4,
        FillVocoder,
        frames(1, &[0.5]),
        frames(1, &[5.0]),
        vec![Vec::new()],
    );
    assert_eq!(result.err(), Some(GeneratorError::InvalidParameterShape));
}

#[test]
fn empty_sequences_are_accepted() {
    assert!(SpeechGenerator::new(4, FillVocoder, Vec::new(), Vec::new(), Vec::new()).is_ok());
    assert!(
        SpeechGenerator::new(4, FillVocoder, frames(2, &[0.5]), frames(2, &[5.0]), Vec::new())
            .is_ok()
    );
    assert!(
        SpeechGenerator::new(4, FillVocoder, Vec::new(), Vec::new(), frames(2, &[1.0, 2.0, 1.0]))
            .is_ok()
    );
}

#[test]
fn new_generator_starts_at_first_frame() {
    let generator = filled(3);
    assert_eq!(generator.fperiod(), 4);
    assert_eq!(generator.synthesized_frames(), 0);
    assert_eq!(generator.frame_count(), 3);
}

#[test]
fn short_buffer_is_refused_at_any_cursor() {
    let mut generator = filled(3);
    let mut buffer = vec![0.0; 4];
    for done in 0..3 {
        for len in 0..4 {
            let mut short = vec![7.0; len];
            assert_eq!(generator.generate_step(&mut short), Err(GeneratorError::BufferTooSmall));
            assert_eq!(short, vec![7.0; len]);
            assert_eq!(generator.synthesized_frames(), done);
        }
        assert_eq!(generator.generate_step(&mut buffer), Ok(4));
        assert_eq!(buffer, vec![done as f64 + 1.0; 4]);
    }
    let mut short = vec![7.0; 2];
    assert_eq!(generator.generate_step(&mut short), Ok(0));
}

#[test]
fn tail_beyond_the_frame_is_untouched() {
    let mut generator = filled(2);
    let mut buffer = vec![-1.0; 7];
    assert_eq!(generator.generate_step(&mut buffer), Ok(4));
    assert_eq!(buffer, vec![1.0, 1.0, 1.0, 1.0, -1.0, -1.0, -1.0]);
    assert_eq!(generator.generate_step(&mut buffer), Ok(4));
    assert_eq!(buffer, vec![2.0, 2.0, 2.0, 2.0, -1.0, -1.0, -1.0]);
}

#[test]
fn vocoder_sees_each_frame_once_in_order() {
    let calls = Rc::new(RefCell::new(Vec::new()));
    let mut generator = SpeechGenerator::new(
        2,
        Recorder { calls: calls.clone() },
        vec![vec![0.1, 0.2], vec![0.3, 0.4], vec![0.5, 0.6]],
        vec![vec![1.0], vec![2.0], vec![3.0]],
        vec![vec![7.0], vec![8.0, 9.0, 8.0], vec![6.0]],
    )
    .unwrap();
    let mut buffer = vec![0.0; 5];
    assert_eq!(generator.generate_step(&mut buffer), Ok(2));
    assert_eq!(buffer, vec![1.0, 1.0, 0.0, 0.0, 0.0]);
    let samples = generator.generate_all();
    assert_eq!(samples, vec![2.0, 2.0, 3.0, 3.0]);
    let expected: Vec<Call> = vec![
        (1.0, vec![0.1, 0.2], vec![7.0], 2),
        (2.0, vec![0.3, 0.4], vec![8.0, 9.0, 8.0], 2),
        (3.0, vec![0.5, 0.6], vec![6.0], 2),
    ];
    assert_eq!(*calls.borrow(), expected);
}

#[test]
fn absent_frames_reach_the_vocoder_empty() {
    let calls = Rc::new(RefCell::new(Vec::new()));
    let generator = SpeechGenerator::new(
        1,
        Recorder { calls: calls.clone() },
        vec![vec![0.1]],
        vec![vec![1.0], vec![2.0]],
        Vec::new(),
    )
    .unwrap();
    assert_eq!(generator.generate_all(), vec![1.0, 2.0]);
    let expected: Vec<Call> =
        vec![(1.0, vec![0.1], Vec::new(), 1), (2.0, Vec::new(), Vec::new(), 1)];
    assert_eq!(*calls.borrow(), expected);
}

#[test]
fn errors_describe_themselves() {
    assert_eq!(
        GeneratorError::InvalidParameterShape.message(),
        "parameter frames have an invalid shape"
    );
    assert_eq!(GeneratorError::BufferTooSmall.message(), "output buffer is shorter than one frame");
}
