//! Turning a recognition request into 16-bit samples.

use crate::error::ServiceError;
use crate::pcm::{
    bytes_to_i16, decode_be_samples, decode_le_samples, lemma_converted_big_endian_decodes_as_big_endian,
    pcm_s16be_to_pcm_s16le, swap_byte_pairs,
};
use crate::wav::{decoded_samples, get_samples_from_wav, wav_header, wav_sample_stream};
use vstd::prelude::*;

verus! {

/// The encodings a client may announce for its audio.
#[derive(Debug, Clone, Copy, PartialEq, Eq)]
pub enum AudioType {
    Unspecified,
    WavPcmS16le,
    RawPcmS16le,
    RawPcmS16be,
}

/// How the audio of a request is encoded and how it should be recognized.
#[derive(Debug, Clone, Copy, PartialEq, Eq)]
pub struct AudioConfig {
    pub audio_type: AudioType,
    pub sample_rate: u32,
    pub max_alternatives: i32,
    pub split_into_phrases: bool,
}

/// A recognition request: the audio payload and its optional configuration.
#[derive(Debug, Clone)]
pub struct RecognizeRequest {
    pub content: Vec<u8>,
    pub config: Option<AudioConfig>,
}

/// Why a request was refused; each is answered as an invalid argument.
#[derive(Debug)]
pub enum RequestError {
    /// "No config provided"
    MissingConfig,
    /// "Audio input is empty"
    EmptyAudio,
    /// The audio could not be decoded; answered with the error's message.
    InvalidAudio(ServiceError),
}

/// The message given for an audio type that the service does not decode.
pub open spec fn unsupported_audio_message() -> Seq<char> {
    "Only pcm_s16le and pcm_s16be are supported"@
}

/// The samples that a request's audio decodes to, or `None` when the
/// service refuses it.
pub open spec fn decoded_audio(audio: Seq<u8>, audio_type: AudioType) -> Option<Seq<i16>> {
    if audio.len() == 0 {
        None
    } else {
        match audio_type {
            AudioType::WavPcmS16le => match wav_header(audio) {
                Some(_) => Some(decoded_samples(wav_sample_stream(audio))),
                None => None,
            },
            AudioType::RawPcmS16le => Some(decode_le_samples(audio)),
            AudioType::RawPcmS16be => Some(decode_le_samples(swap_byte_pairs(audio))),
            AudioType::Unspecified => None,
        }
    }
}

/// The error with which the service refuses audio that does not decode.
pub open spec fn is_refusal_of(audio: Seq<u8>, audio_type: AudioType, error: RequestError) -> bool {
    if audio.len() == 0 {
        error is EmptyAudio
    } else {
        match audio_type {
            AudioType::WavPcmS16le => error matches RequestError::InvalidAudio(
                ServiceError::WavReaderError(_),
            ),
            AudioType::Unspecified => error matches RequestError::InvalidAudio(
                ServiceError::InvalidAudio(message),
            ) && message@ == unsupported_audio_message(),
            _ => false,
        }
    }
}

/// A non-empty big-endian payload decodes to its big-endian reading, and a
/// little-endian payload to its little-endian reading.
pub proof fn lemma_raw_audio_decodes_in_its_byte_order(audio: Seq<u8>)
    requires
        audio.len() > 0,
    ensures
        decoded_audio(audio, AudioType::RawPcmS16be) == Some(decode_be_samples(audio)),
        decoded_audio(audio, AudioType::RawPcmS16le) == Some(decode_le_samples(audio)),
{
    lemma_converted_big_endian_decodes_as_big_endian(audio);
}

/// A WAV request decodes to exactly the samples that the WAV reader decodes
/// from the file's data, the samples `get_samples_from_wav` gives, and is
/// refused exactly when the reader refuses the file; an empty request or one
/// of unspecified type never decodes.
pub proof fn lemma_wav_request_decodes_like_wav_file(audio: Seq<u8>, audio_type: AudioType)
    ensures
        audio.len() > 0 && wav_header(audio) is Some ==> decoded_audio(audio, AudioType::WavPcmS16le)
            == Some(decoded_samples(wav_sample_stream(audio))),
        wav_header(audio) is None ==> decoded_audio(audio, AudioType::WavPcmS16le) is None,
        audio.len() == 0 ==> decoded_audio(audio, audio_type) is None,
        decoded_audio(audio, AudioType::Unspecified) is None,
{
}

/// Decodes the audio of a request into 16-bit samples according to its type.
pub fn transform_audio_to_i16(audio: &[u8], audio_type: AudioType) -> (res: Result<
    Vec<i16>,
    RequestError,
>)
    ensures
        match res {
            Ok(samples) => decoded_audio(audio@, audio_type) == Some(samples@),
            Err(error) => decoded_audio(audio@, audio_type) is None && is_refusal_of(
                audio@,
                audio_type,
                error,
            ),
        },
        audio@.len() == 0 ==> res matches Err(RequestError::EmptyAudio),
        audio@.len() > 0 && audio_type == AudioType::WavPcmS16le ==> {
            &&& res is Ok <==> wav_header(audio@) is Some
            &&& res matches Ok(samples) ==> samples@ == decoded_samples(wav_sample_stream(audio@))
        },
        audio@.len() > 0 && audio_type == AudioType::RawPcmS16le ==> (res matches Ok(samples)
            && samples@ == decode_le_samples(audio@)),
        audio@.len() > 0 && audio_type == AudioType::RawPcmS16be ==> (res matches Ok(samples)
            && samples@ == decode_be_samples(audio@)),
        audio_type == AudioType::Unspecified ==> res is Err,
        audio@.len() > 0 && audio_type == AudioType::Unspecified ==> (res matches Err(
            RequestError::InvalidAudio(ServiceError::InvalidAudio(message)),
        ) && message@ == "Only pcm_s16le and pcm_s16be are supported"@),
{
    if audio.len() == 0 {
        return Err(RequestError::EmptyAudio);
    }
    proof {
        lemma_converted_big_endian_decodes_as_big_endian(audio@);
    }
    match audio_type {
        AudioType::WavPcmS16le => match get_samples_from_wav(audio) {
            Ok(samples) => Ok(samples),
            Err(e) => Err(RequestError::InvalidAudio(e)),
        },
        AudioType::RawPcmS16le => Ok(bytes_to_i16(audio)),
        AudioType::RawPcmS16be => {
            let bytes = pcm_s16be_to_pcm_s16le(audio);
            Ok(bytes_to_i16(&bytes))
        },
        AudioType::Unspecified => {
            let message = "Only pcm_s16le and pcm_s16be are supported".to_string();
            Err(RequestError::InvalidAudio(ServiceError::InvalidAudio(message)))
        },
    }
}

/// Takes the configuration and the decoded samples out of a request.
pub fn get_audio_and_config_from_request(request: &RecognizeRequest) -> (res: Result<
    (Vec<i16>, AudioConfig),
    RequestError,
>)
    ensures
        request.config is None ==> res matches Err(RequestError::MissingConfig),
        request.config matches Some(config) ==> match res {
            Ok((samples, c)) => c == config && decoded_audio(request.content@, config.audio_type)
                == Some(samples@),
            Err(error) => decoded_audio(request.content@, config.audio_type) is None
                && is_refusal_of(request.content@, config.audio_type, error),
        },
{
    match request.config {
        None => Err(RequestError::MissingConfig),
        Some(config) => {
            let audio = transform_audio_to_i16(request.content.as_slice(), config.audio_type)?;
            Ok((audio, config))
        },
    }
}

} // verus!
