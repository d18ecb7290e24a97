//! WAV payloads: header inspection and sample extraction on top of `hound`.

use crate::error::ServiceError;
use vstd::prelude::*;

verus! {

/// Declares `hound::Error`, the error of the WAV reader, so that it can be
/// carried through verified code; nothing is known of its contents.
#[verifier::external_type_specification]
#[verifier::external_body]
pub struct ExHoundError(hound::Error);

/// Whether samples are stored as integers or as IEEE floats.
#[derive(Debug, Clone, Copy, PartialEq, Eq)]
pub enum SampleKind {
    Float,
    Int,
}

/// The audio properties announced by a WAV header.
#[derive(Debug, Clone, Copy, PartialEq, Eq)]
pub struct WavFormat {
    pub channels: u16,
    pub sample_rate: u32,
    pub bits_per_sample: u16,
    pub sample_format: SampleKind,
}

/// What `hound::WavReader::new` makes of a byte stream: the format that its
/// header announces, or `None` when the reader rejects the stream.
pub uninterp spec fn wav_header(bytes: Seq<u8>) -> Option<WavFormat>;

/// The items that `hound::WavReader::samples::<i16>` yields for a stream
/// whose header was accepted, in order: the decoded sample, or `None` where
/// the reader reported an error for that item.
pub uninterp spec fn wav_sample_stream(bytes: Seq<u8>) -> Seq<Option<i16>>;

/// The stream starts with a `RIFF` tag and carries a `WAVE` tag at offset 8.
pub open spec fn has_riff_wave_tags(bytes: Seq<u8>) -> bool {
    &&& bytes.len() >= 12
    &&& bytes.subrange(0, 4) == seq![0x52u8, 0x49u8, 0x46u8, 0x46u8]
    &&& bytes.subrange(8, 12) == seq![0x57u8, 0x41u8, 0x56u8, 0x45u8]
}

/// Reads the header of a WAV stream with `hound::WavReader::new` and returns
/// the format that `WavReader::spec` reports.
/// Trusted: the result is `wav_header` of the bytes; hound's
/// `read_wave_header` refuses a stream without the `RIFF` and `WAVE` tags.
#[verifier::external_body]
fn read_wav_format(wav: &[u8]) -> (res: Result<WavFormat, hound::Error>)
    ensures
        match res {
            Ok(format) => wav_header(wav@) == Some(format),
            Err(_) => wav_header(wav@) is None,
        },
        res is Ok ==> has_riff_wave_tags(wav@),
{
    let spec = hound::WavReader::new(wav)?.spec();
    let sample_format = match spec.sample_format {
        hound::SampleFormat::Float => SampleKind::Float,
        hound::SampleFormat::Int => SampleKind::Int,
    };
    Ok(WavFormat {
        channels: spec.channels,
        sample_rate: spec.sample_rate,
        bits_per_sample: spec.bits_per_sample,
        sample_format,
    })
}

/// Opens a WAV stream with `hound::WavReader::new` and collects every item of
/// `WavReader::samples::<i16>`, an item that failed to decode becoming `None`.
/// Trusted: the reader is built as in `read_wav_format`, so it fails exactly
/// when `wav_header` is `None`; the items are `wav_sample_stream` of the bytes.
#[verifier::external_body]
fn read_wav_samples(wav: &[u8]) -> (res: Result<Vec<Option<i16>>, hound::Error>)
    ensures
        match res {
            Ok(items) => wav_header(wav@) is Some && items@ == wav_sample_stream(wav@),
            Err(_) => wav_header(wav@) is None,
        },
        res is Ok ==> has_riff_wave_tags(wav@),
{
    let mut reader = hound::WavReader::new(wav)?;
    Ok(reader.samples::<i16>().map(Result::ok).collect())
}

/// The samples that decoded successfully, in stream order.
pub open spec fn decoded_samples(items: Seq<Option<i16>>) -> Seq<i16>
    decreases items.len(),
{
    if items.len() == 0 {
        Seq::empty()
    } else {
        let rest = decoded_samples(items.drop_last());
        match items.last() {
            Some(sample) => rest.push(sample),
            None => rest,
        }
    }
}

/// Skipping failed items keeps every decoded sample: none is lost, none is
/// invented, and when every item decoded the samples are exactly the items.
pub proof fn lemma_decoded_samples_keep_successes(items: Seq<Option<i16>>)
    ensures
        decoded_samples(items).len() <= items.len(),
        (forall|i: int| 0 <= i < items.len() ==> #[trigger] items[i] is Some) ==> decoded_samples(
            items,
        ) == items.map_values(|item: Option<i16>| item.unwrap()),
    decreases items.len(),
{
    if items.len() > 0 {
        let rest = items.drop_last();
        lemma_decoded_samples_keep_successes(rest);
        if forall|i: int| 0 <= i < items.len() ==> #[trigger] items[i] is Some {
            assert forall|i: int| 0 <= i < rest.len() implies #[trigger] rest[i] is Some by {
                assert(rest[i] == items[i]);
            }
            assert(items[items.len() - 1] is Some);
            assert(decoded_samples(items) =~= items.map_values(|item: Option<i16>| item.unwrap()));
        }
    }
}

/// Skipping failed items works item by item: a decoded item gives its
/// sample, a failed item gives nothing, and joined streams give the joined
/// samples.
pub proof fn lemma_decoded_samples_item_by_item(a: Seq<Option<i16>>, b: Seq<Option<i16>>, x: i16)
    ensures
        decoded_samples(seq![Some(x)]) == seq![x],
        decoded_samples(seq![None::<i16>]) == Seq::<i16>::empty(),
        decoded_samples(Seq::<Option<i16>>::empty()) == Seq::<i16>::empty(),
        decoded_samples(a + b) == decoded_samples(a) + decoded_samples(b),
    decreases b.len(),
{
    let one: Seq<Option<i16>> = seq![Some(x)];
    assert(one.drop_last() =~= Seq::<Option<i16>>::empty());
    let none: Seq<Option<i16>> = seq![None::<i16>];
    assert(none.drop_last() =~= Seq::<Option<i16>>::empty());
    assert(decoded_samples(Seq::<Option<i16>>::empty()) == Seq::<i16>::empty());
    assert(one.last() == Some(x));
    assert(Seq::<i16>::empty().push(x) =~= seq![x]);
    assert(decoded_samples(one) =~= seq![x]);
    if b.len() == 0 {
        assert(a + b =~= a);
        assert(decoded_samples(a) + decoded_samples(b) =~= decoded_samples(a));
    } else {
        lemma_decoded_samples_item_by_item(a, b.drop_last(), x);
        assert((a + b).drop_last() =~= a + b.drop_last());
        assert((a + b).last() == b.last());
        match b.last() {
            Some(v) => {
                assert(decoded_samples(a) + decoded_samples(b.drop_last()).push(v) =~= (
                decoded_samples(a) + decoded_samples(b.drop_last())).push(v));
            },
            None => {},
        }
    }
}

/// Keeps the samples that decoded successfully and skips the items that failed.
pub fn collect_decoded_samples(items: &Vec<Option<i16>>) -> (samples: Vec<i16>)
    ensures
        samples@ == decoded_samples(items@),
{
    let mut samples: Vec<i16> = Vec::new();
    let n = items.len();
    let mut k: usize = 0;
    while k < n
        invariant
            n == items@.len(),
            k <= n,
            samples@ == decoded_samples(items@.take(k as int)),
        decreases n - k,
    {
        assert(items@.take(k + 1).drop_last() =~= items@.take(k as int));
        match items[k] {
            Some(sample) => samples.push(sample),
            None => {},
        }
        k = k + 1;
    }
    assert(items@.take(n as int) =~= items@);
    samples
}

/// Reads samples from a WAV file and returns them as i16 values.
/// Items the decoder cannot turn into an `i16` are skipped.
pub fn get_samples_from_wav(wav: &[u8]) -> (res: Result<Vec<i16>, ServiceError>)
    ensures
        res is Ok <==> wav_header(wav@) is Some,
        res matches Ok(samples) ==> samples@ == decoded_samples(wav_sample_stream(wav@)),
        res matches Err(e) ==> e is WavReaderError,
        !has_riff_wave_tags(wav@) ==> res is Err,
{
    match read_wav_samples(wav) {
        Ok(items) => Ok(collect_decoded_samples(&items)),
        Err(e) => Err(ServiceError::WavReaderError(e)),
    }
}

/// A format is mono integer PCM at the given sample rate.
pub open spec fn spec_is_mono_pcm(format: WavFormat, expected_sample_rate: u32) -> bool {
    &&& format.sample_format == SampleKind::Int
    &&& format.sample_rate == expected_sample_rate
    &&& format.channels == 1
}

/// Checks a WAV format for mono integer PCM at the expected sample rate.
pub fn is_mono_pcm_format(format: &WavFormat, expected_sample_rate: u32) -> (res: bool)
    ensures
        res == spec_is_mono_pcm(*format, expected_sample_rate),
        res <==> (format.sample_format == SampleKind::Int && format.sample_rate
            == expected_sample_rate && format.channels == 1),
{
    let is_int = match format.sample_format {
        SampleKind::Int => true,
        SampleKind::Float => false,
    };
    is_int && format.sample_rate == expected_sample_rate && format.channels == 1
}

/// Checks if WAV data is mono PCM format with the expected sample rate.
pub fn is_mono_pcm_wav(wav_data: &[u8], expected_sample_rate: u32) -> (res: Result<
    bool,
    ServiceError,
>)
    ensures
        res is Ok <==> wav_header(wav_data@) is Some,
        res matches Ok(valid) ==> valid == spec_is_mono_pcm(
            wav_header(wav_data@).unwrap(),
            expected_sample_rate,
        ),
        res matches Err(e) ==> e is WavReaderError,
        !has_riff_wave_tags(wav_data@) ==> res is Err,
        res matches Ok(valid) ==> (valid <==> (wav_header(wav_data@).unwrap().sample_format
            == SampleKind::Int && wav_header(wav_data@).unwrap().sample_rate == expected_sample_rate
            && wav_header(wav_data@).unwrap().channels == 1)),
{
    match read_wav_format(wav_data) {
        Ok(format) => Ok(is_mono_pcm_format(&format, expected_sample_rate)),
        Err(e) => Err(ServiceError::WavReaderError(e)),
    }
}

} // verus!
