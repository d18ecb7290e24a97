//! Error types of the service.

use vstd::prelude::*;

verus! {

/// Errors raised while decoding audio or running voice-activity detection.
#[derive(Debug)]
pub enum ServiceError {
    /// The WAV decoder rejected the payload.
    WavReaderError(hound::Error),
    /// The audio is not something the service can process.
    InvalidAudio(String),
    /// The voice-activity detector failed.
    VadError(VadError),
}

/// Errors of the voice-activity detector.
#[derive(Debug)]
pub enum VadError {
    /// The detector was configured with values it cannot work with.
    InvalidConfiguration(String),
}

/// Errors of the standalone transcription service.
#[derive(Debug)]
pub enum TranscribeServiceError {
    /// The WAV decoder rejected the payload.
    WavReaderError(hound::Error),
    /// The audio is not something the service can process.
    InvalidAudio(String),
}

} // verus!
