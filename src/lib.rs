//! Orchestration of a text-to-speech pipeline: phoneme groups are turned into
//! waveform segments one by one (lazily) or all at once (eagerly), with optional
//! rate, volume and pitch post-processing. The voice model and the signal
//! processing engine are driven by the caller, which hands their results back.
pub mod effects;
pub mod error;
pub mod generator;
pub mod stream;
