//! The simple test service and the standalone transcription service.

use crate::pcm::{bytes_to_i16, decode_le_samples};
use vstd::prelude::*;

verus! {

/// The answer of the test endpoint.
#[derive(Debug, Clone, PartialEq, Eq, Default)]
pub struct SimpleResponse {
    pub text: String,
}

/// A service with a single endpoint that answers with a fixed text.
#[derive(Debug, Clone, Copy, PartialEq, Eq, Default)]
pub struct SimpleService {}

/// The text of the test endpoint's answer.
pub open spec fn test_reply_text() -> Seq<char> {
    "Тестовый ответ"@
}

impl SimpleService {
    /// Answers the test endpoint.
    pub fn test(&self) -> (reply: SimpleResponse)
        ensures
            reply.text@ == test_reply_text(),
            reply.text@ == "Тестовый ответ"@,
    {
        SimpleResponse { text: "Тестовый ответ".to_string() }
    }
}

/// The standalone transcription service, which takes raw little-endian
/// 16-bit audio.
#[derive(Debug, Clone, Copy, PartialEq, Eq, Default)]
pub struct Service {}

impl Service {
    /// The samples of an audio payload, two little-endian bytes each; a
    /// trailing odd byte is ignored.
    pub fn samples_from_audio(audio_data: &[u8]) -> (samples: Vec<i16>)
        ensures
            samples@ == decode_le_samples(audio_data@),
    {
        bytes_to_i16(audio_data)
    }
}

} // verus!
