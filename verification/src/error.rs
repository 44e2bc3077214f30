//! Failures reported by the generator.

use vstd::prelude::*;

verus! {

/// Why the generator refused to be built or to step.
#[derive(Clone, Copy, Debug, PartialEq, Eq, Structural)]
pub enum GeneratorError {
    /// A log-F0 frame does not hold exactly one value, or a low-pass filter
    /// frame holds an even number of taps.
    InvalidParameterShape,
    /// The output buffer cannot hold one frame of samples.
    BufferTooSmall,
}

impl GeneratorError {
    /// A short description of the failure.
    pub fn message(&self) -> (text: &'static str)
        ensures
            text@ == self.message_text(),
    {
        match self {
            GeneratorError::InvalidParameterShape => "parameter frames have an invalid shape",
            GeneratorError::BufferTooSmall => "output buffer is shorter than one frame",
        }
    }

    /// The text that [`GeneratorError::message`] returns.
    pub open spec fn message_text(&self) -> Seq<char> {
        match self {
            GeneratorError::InvalidParameterShape => "parameter frames have an invalid shape"@,
            GeneratorError::BufferTooSmall => "output buffer is shorter than one frame"@,
        }
    }
}

} // verus!
