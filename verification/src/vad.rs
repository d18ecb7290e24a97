//! Voice-activity detection: the checks made before running the detector
//! and the conversion of its output into response intervals.

use crate::error::{ServiceError, VadError};
use vstd::prelude::*;

verus! {

/// A speech segment found by the detector.
#[derive(Debug, Clone, Copy, PartialEq, Eq, Default)]
pub struct TimeStamp {
    pub start: i64,
    pub end: i64,
}

/// A speech segment as it is sent back to the client.
#[derive(Debug, Clone, Copy, PartialEq, Eq, Default)]
pub struct SpeechInterval {
    pub start_s: i64,
    pub end_s: i64,
}

/// The only sample rate the detector is configured for.
pub const VAD_SAMPLE_RATE: u32 = 16000;

/// The interval that reports a detected segment.
pub open spec fn interval_of(timestamp: TimeStamp) -> SpeechInterval {
    SpeechInterval { start_s: timestamp.start, end_s: timestamp.end }
}

/// An interval reports its segment's bounds unchanged, for every start and
/// end, and different segments give different intervals.
pub proof fn lemma_interval_keeps_bounds(t: TimeStamp, u: TimeStamp)
    ensures
        interval_of(t).start_s == t.start,
        interval_of(t).end_s == t.end,
        interval_of(t) == interval_of(u) ==> t == u,
{
}

/// Converts a detected segment into the interval sent to the client.
pub fn timestamp_to_speech_interval(timestamp: &TimeStamp) -> (interval: SpeechInterval)
    ensures
        interval == interval_of(*timestamp),
        interval.start_s == timestamp.start,
        interval.end_s == timestamp.end,
{
    SpeechInterval { start_s: timestamp.start, end_s: timestamp.end }
}

/// Converts every detected segment, keeping their order.
pub fn timestamps_to_speech_intervals(timestamps: &Vec<TimeStamp>) -> (intervals: Vec<
    SpeechInterval,
>)
    ensures
        intervals@ == timestamps@.map_values(|t: TimeStamp| interval_of(t)),
        intervals@.len() == timestamps@.len(),
        forall|i: int|
            0 <= i < timestamps@.len() ==> #[trigger] intervals@[i].start_s == timestamps@[i].start
                && intervals@[i].end_s == timestamps@[i].end,
{
    let mut intervals: Vec<SpeechInterval> = Vec::with_capacity(timestamps.len());
    let n = timestamps.len();
    let mut k: usize = 0;
    while k < n
        invariant
            n == timestamps@.len(),
            k <= n,
            intervals@.len() == k,
            forall|j: int| 0 <= j < k ==> #[trigger] intervals@[j] == interval_of(timestamps@[j]),
        decreases n - k,
    {
        intervals.push(timestamp_to_speech_interval(&timestamps[k]));
        k = k + 1;
    }
    assert(intervals@ =~= timestamps@.map_values(|t: TimeStamp| interval_of(t)));
    intervals
}

/// The message given for audio at a rate the detector does not handle.
pub open spec fn unsupported_rate_message() -> Seq<char> {
    "Unsupported sample rate"@
}

/// Checks that audio comes at the rate the detector is configured for.
pub fn check_vad_sample_rate(sample_rate: u32) -> (res: Result<(), ServiceError>)
    ensures
        res is Ok <==> sample_rate == VAD_SAMPLE_RATE,
        res matches Err(e) ==> e matches ServiceError::InvalidAudio(message) && message@
            == unsupported_rate_message(),
        res matches Err(e) ==> e matches ServiceError::InvalidAudio(message) && message@
            == "Unsupported sample rate"@,
{
    if sample_rate == VAD_SAMPLE_RATE {
        Ok(())
    } else {
        Err(ServiceError::InvalidAudio("Unsupported sample rate".to_string()))
    }
}

/// The message given for a detector configured without sessions.
pub open spec fn no_sessions_message() -> Seq<char> {
    "Sessions number must be greater than 0"@
}

/// Checks that the detector is given at least one inference session.
pub fn check_sessions_num(sessions_num: u8) -> (res: Result<(), VadError>)
    ensures
        res is Ok <==> sessions_num > 0,
        res matches Err(e) ==> e matches VadError::InvalidConfiguration(message) && message@
            == no_sessions_message(),
        res matches Err(e) ==> e matches VadError::InvalidConfiguration(message) && message@
            == "Sessions number must be greater than 0"@,
{
    if sessions_num == 0 {
        Err(VadError::InvalidConfiguration("Sessions number must be greater than 0".to_string()))
    } else {
        Ok(())
    }
}

} // verus!
