//! Audio handling for a speech-recognition gRPC service: validation of raw
//! PCM payloads, byte-order conversion, sample decoding, WAV inspection and
//! the request/response logic that sits between the transport and the
//! recognizers.

pub mod pcm;
pub mod error;
pub mod wav;
pub mod request;
pub mod recognition;
pub mod service;
pub mod settings;
pub mod vad;
