use grpc_server::error::{ServiceError, VadError};
use grpc_server::vad::{
    check_sessions_num, check_vad_sample_rate, timestamp_to_speech_interval, timestamps_to_speech_intervals,
    SpeechInterval, TimeStamp,
};

#[test]
fn timestamp_becomes_interval() {
    let interval = timestamp_to_speech_interval(&TimeStamp { start: 1600, end: -3 });
    assert_eq!(interval, SpeechInterval { start_s: 1600, end_s: -3 });
}

#[test]
fn timestamps_keep_their_order() {
    let timestamps = vec![TimeStamp { start: 5, end: 9 }, TimeStamp { start: 0, end: 2 }];
    let intervals = timestamps_to_speech_intervals(&timestamps);
    assert_eq!(intervals, vec![SpeechInterval { start_s: 5, end_s: 9 }, SpeechInterval { start_s: 0, end_s: 2 }]);
    assert_eq!(timestamps_to_speech_intervals(&Vec::new()), Vec::new());
}

#[test]
fn only_sixteen_khz_is_accepted() {
    assert!(check_vad_sample_rate(16000).is_ok());
    match check_vad_sample_rate(8000) {
        Err(ServiceError::InvalidAudio(message)) => assert_eq!(message, "Unsupported sample rate"),
        other => panic!("unexpected result: {other:?}"),
    }
}

#[test]
fn sessions_num_must_be_positive() {
    assert!(check_sessions_num(1).is_ok());
    assert!(check_sessions_num(255).is_ok());
    match check_sessions_num(0) {
        Err(VadError::InvalidConfiguration(message)) => {
            assert_eq!(message, "Sessions number must be greater than 0")
        }
        other => panic!("unexpected result: {other:?}"),
    }
}
