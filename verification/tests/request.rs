use grpc_server::error::ServiceError;
use grpc_server::request::{
    get_audio_and_config_from_request, transform_audio_to_i16, AudioConfig, AudioType, RecognizeRequest,
    RequestError,
};

fn config(audio_type: AudioType) -> AudioConfig {
    AudioConfig { audio_type, sample_rate: 16000, max_alternatives: 1, split_into_phrases: false }
}

#[test]
fn transform_refuses_empty_audio_of_every_type() {
    for audio_type in [AudioType::Unspecified, AudioType::WavPcmS16le, AudioType::RawPcmS16le, AudioType::RawPcmS16be] {
        assert!(matches!(transform_audio_to_i16(&[], audio_type), Err(RequestError::EmptyAudio)));
    }
}

#[test]
fn transform_decodes_little_endian_raw() {
    let samples = transform_audio_to_i16(&[0x34, 0x12, 0xFF], AudioType::RawPcmS16le).unwrap();
    assert_eq!(samples, vec![0x1234]);
}

#[test]
fn transform_decodes_big_endian_raw() {
    let samples = transform_audio_to_i16(&[0x12, 0x34, 0x80, 0x00], AudioType::RawPcmS16be).unwrap();
    assert_eq!(samples, vec![0x1234, i16::MIN]);
}

#[test]
fn transform_refuses_unspecified_type() {
    match transform_audio_to_i16(&[1, 2], AudioType::Unspecified) {
        Err(RequestError::InvalidAudio(ServiceError::InvalidAudio(message))) => {
            assert_eq!(message, "Only pcm_s16le and pcm_s16be are supported")
        }
        other => panic!("unexpected result: {other:?}"),
    }
}

#[test]
fn transform_refuses_broken_wav() {
    assert!(matches!(
        transform_audio_to_i16(&[0, 1, 2, 3], AudioType::WavPcmS16le),
        Err(RequestError::InvalidAudio(ServiceError::WavReaderError(_)))
    ));
}

#[test]
fn request_without_config_is_refused() {
    let request = RecognizeRequest { content: vec![1, 2], config: None };
    assert!(matches!(get_audio_and_config_from_request(&request), Err(RequestError::MissingConfig)));
}

#[test]
fn request_with_config_is_decoded() {
    let request = RecognizeRequest { content: vec![0x01, 0x00, 0x02, 0x00], config: Some(config(AudioType::RawPcmS16le)) };
    let (samples, got) = get_audio_and_config_from_request(&request).unwrap();
    assert_eq!(samples, vec![1, 2]);
    assert_eq!(got, config(AudioType::RawPcmS16le));
}

#[test]
fn request_with_empty_audio_is_refused() {
    let request = RecognizeRequest { content: vec![], config: Some(config(AudioType::RawPcmS16be)) };
    assert!(matches!(get_audio_and_config_from_request(&request), Err(RequestError::EmptyAudio)));
}
