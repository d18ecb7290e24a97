use grpc_server::error::ServiceError;
use grpc_server::pcm::bytes_to_i16;
use grpc_server::wav::{
    collect_decoded_samples, get_samples_from_wav, is_mono_pcm_format, is_mono_pcm_wav, SampleKind,
    WavFormat,
};

fn wav_bytes(format_tag: u16, channels: u16, sample_rate: u32, bits: u16, data: &[u8]) -> Vec<u8> {
    let block_align = channels * (bits / 8);
    let byte_rate = sample_rate * block_align as u32;
    let mut out = Vec::new();
    out.extend_from_slice(b"RIFF");
    out.extend_from_slice(&(36 + data.len() as u32).to_le_bytes());
    out.extend_from_slice(b"WAVE");
    out.extend_from_slice(b"fmt ");
    out.extend_from_slice(&16u32.to_le_bytes());
    out.extend_from_slice(&format_tag.to_le_bytes());
    out.extend_from_slice(&channels.to_le_bytes());
    out.extend_from_slice(&sample_rate.to_le_bytes());
    out.extend_from_slice(&byte_rate.to_le_bytes());
    out.extend_from_slice(&block_align.to_le_bytes());
    out.extend_from_slice(&bits.to_le_bytes());
    out.extend_from_slice(b"data");
    out.extend_from_slice(&(data.len() as u32).to_le_bytes());
    out.extend_from_slice(data);
    out
}

#[test]
fn test_get_samples_from_wav_empty_data() {
    let empty_wav = [];

    assert!(get_samples_from_wav(&empty_wav).is_err(), "Expected error for empty data, but got Ok");
}

#[test]
fn test_get_samples_from_wav_invalid_data() {
    let invalid_wav = [0, 1, 2, 3];

    assert!(get_samples_from_wav(&invalid_wav).is_err(), "Expected error for invalid wav, but got Ok");
}

#[test]
fn test_is_mono_pcm_wav_empty_data() {
    let empty_wav = [];

    assert!(is_mono_pcm_wav(&empty_wav, 16000).is_err(), "Expected error for empty data, but got Ok");
}

#[test]
fn test_is_mono_pcm_wav_invalid_data() {
    let invalid_data = vec![0x00, 0x01, 0x02, 0x03];

    assert!(
        is_mono_pcm_wav(&invalid_data, 16000).is_err(),
        "Expected error for invalid data, but got Ok"
    );
}

#[test]
fn test_bytes_to_i16_empty_input() {
    let bytes = [];
    let result = bytes_to_i16(&bytes);

    assert_eq!(result, Vec::<i16>::new());
}

#[test]
fn test_bytes_to_i16_correct_conversion() {
    let bytes = [0x34, 0x12, 0x78, 0x56];
    let result = bytes_to_i16(&bytes);

    assert_eq!(result, vec![0x1234, 0x5678]);
}

#[test]
fn test_bytes_to_i16_odd_length_truncated() {
    let bytes = [0x01, 0x02, 0x03];
    let result = bytes_to_i16(&bytes);

    assert_eq!(result, vec![0x0201]);
}

#[test]
fn test_bytes_to_i16_endianness() {
    let bytes = if u16::from_ne_bytes([1, 0]) == 1 {
        [0xCD, 0xAB]
    } else {
        [0xAB, 0xCD]
    };
    let expected = i16::from_ne_bytes(bytes);
    let result = bytes_to_i16(&bytes);

    assert_eq!(result, vec![expected]);
}

#[test]
fn bytes_to_i16_negative_and_extreme_values() {
    let bytes = [0xFF, 0xFF, 0x00, 0x80, 0xFF, 0x7F];
    assert_eq!(bytes_to_i16(&bytes), vec![-1, i16::MIN, i16::MAX]);
}

#[test]
fn get_samples_from_valid_wav() {
    let wav = wav_bytes(1, 1, 16000, 16, &[0x34, 0x12, 0xFF, 0xFF, 0x00, 0x80]);
    let samples = get_samples_from_wav(&wav).unwrap();
    assert_eq!(samples, vec![0x1234, -1, i16::MIN]);
}

#[test]
fn get_samples_from_wav_without_data() {
    let wav = wav_bytes(1, 1, 16000, 16, &[]);
    assert_eq!(get_samples_from_wav(&wav).unwrap(), Vec::<i16>::new());
}

#[test]
fn get_samples_from_wav_skips_samples_too_wide_for_i16() {
    let wav = wav_bytes(1, 1, 8000, 32, &[0, 0, 1, 0, 0, 0, 2, 0]);
    assert_eq!(get_samples_from_wav(&wav).unwrap(), Vec::<i16>::new());
}

#[test]
fn get_samples_from_wav_reports_reader_error() {
    let mut wav = wav_bytes(1, 1, 16000, 16, &[1, 0]);
    wav[8] = b'X';
    assert!(matches!(get_samples_from_wav(&wav), Err(ServiceError::WavReaderError(_))));
}

#[test]
fn is_mono_pcm_wav_accepts_mono_int_at_rate() {
    let wav = wav_bytes(1, 1, 16000, 16, &[0, 0]);
    assert!(is_mono_pcm_wav(&wav, 16000).unwrap());
}

#[test]
fn is_mono_pcm_wav_rejects_other_rate() {
    let wav = wav_bytes(1, 1, 8000, 16, &[0, 0]);
    assert!(!is_mono_pcm_wav(&wav, 16000).unwrap());
}

#[test]
fn is_mono_pcm_wav_rejects_stereo() {
    let wav = wav_bytes(1, 2, 16000, 16, &[0, 0, 0, 0]);
    assert!(!is_mono_pcm_wav(&wav, 16000).unwrap());
}

#[test]
fn is_mono_pcm_wav_rejects_float() {
    let wav = wav_bytes(3, 1, 16000, 32, &[0, 0, 0, 0]);
    assert!(!is_mono_pcm_wav(&wav, 16000).unwrap());
}

#[test]
fn is_mono_pcm_wav_reports_reader_error() {
    let wav = [b'R', b'I', b'F', b'F', 0, 0, 0, 0, b'W', b'A', b'V', b'E'];
    assert!(matches!(is_mono_pcm_wav(&wav, 16000), Err(ServiceError::WavReaderError(_))));
}

#[test]
fn is_mono_pcm_format_checks_each_property() {
    let mono = WavFormat { channels: 1, sample_rate: 16000, bits_per_sample: 16, sample_format: SampleKind::Int };
    assert!(is_mono_pcm_format(&mono, 16000));
    assert!(!is_mono_pcm_format(&mono, 8000));
    assert!(!is_mono_pcm_format(&WavFormat { channels: 2, ..mono }, 16000));
    assert!(!is_mono_pcm_format(&WavFormat { sample_format: SampleKind::Float, ..mono }, 16000));
}

#[test]
fn collect_decoded_samples_skips_failures_in_order() {
    let items = vec![Some(3), None, Some(-7), None, Some(0)];
    assert_eq!(collect_decoded_samples(&items), vec![3, -7, 0]);
    assert_eq!(collect_decoded_samples(&vec![None, None]), Vec::<i16>::new());
}
