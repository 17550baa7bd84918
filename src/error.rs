use vstd::prelude::*;

verus! {

/// The ways in which synthesis of an utterance, or of one of its groups, fails.
#[derive(Debug)]
pub enum PiperError {
    /// The text could not be turned into phoneme groups: fatal for the utterance.
    PhonemizationError(String),
    /// The model produced no waveform for one group.
    InferenceError(String),
    /// The post-processing engine produced no usable output for one group.
    OperationError(String),
}

/// A value, or the error that took its place.
pub type PiperResult<T> = Result<T, PiperError>;

} // verus!
