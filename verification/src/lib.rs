//! Frame-synchronous waveform generation for parametric speech synthesis.
//!
//! A [`SpeechGenerator`] owns three frame-aligned parameter sequences and a
//! cursor. Each step hands the parameters under the cursor to a [`Vocoder`],
//! which renders one frame of samples into the caller's buffer.

pub mod error;
pub mod laws;
pub mod model;
pub mod speech;
pub mod vocoder;

pub use error::GeneratorError;
pub use model::GeneratorState;
pub use speech::SpeechGenerator;
pub use vocoder::{HoldVocoder, Vocoder};
