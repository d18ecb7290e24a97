//! Raw 16-bit PCM: validation, byte-order conversion and sample decoding.

use vstd::prelude::*;

verus! {

/// Raw PCM data is non-empty and made of whole 16-bit samples.
pub open spec fn spec_is_pcm_raw(data: Seq<u8>) -> bool {
    data.len() > 0 && data.len() % 2 == 0
}

/// The number of bytes that make up whole 16-bit samples: a trailing odd
/// byte is not part of any sample.
pub open spec fn whole_sample_bytes(len: nat) -> nat {
    (2 * (len / 2)) as nat
}

/// The bytes of `data` with the two bytes of every whole 16-bit sample
/// exchanged; a trailing odd byte is dropped.
pub open spec fn swap_byte_pairs(data: Seq<u8>) -> Seq<u8> {
    Seq::new(
        whole_sample_bytes(data.len()),
        |i: int| if i % 2 == 0 { data[i + 1] } else { data[i - 1] },
    )
}

/// The signed 16-bit value stored in two's complement by a low and a high byte.
pub open spec fn sample_value(low: u8, high: u8) -> int {
    let u = low as int + 256 * high as int;
    if u < 0x8000 { u } else { u - 0x10000 }
}

/// Little-endian decoding: sample `i` is stored in bytes `2i` (low) and
/// `2i + 1` (high); a trailing odd byte is ignored.
pub open spec fn decode_le_samples(data: Seq<u8>) -> Seq<i16> {
    Seq::new(data.len() / 2, |i: int| sample_value(data[2 * i], data[2 * i + 1]) as i16)
}

/// Big-endian decoding: sample `i` is stored in bytes `2i` (high) and
/// `2i + 1` (low); a trailing odd byte is ignored.
pub open spec fn decode_be_samples(data: Seq<u8>) -> Seq<i16> {
    Seq::new(data.len() / 2, |i: int| sample_value(data[2 * i + 1], data[2 * i]) as i16)
}

/// Checks if the raw data is PCM raw audio data.
/// PCM raw data must be non-empty and of even length (16-bit samples).
pub fn is_pcm_raw(raw_data: &[u8]) -> (res: bool)
    ensures
        res == spec_is_pcm_raw(raw_data@),
        res <==> (raw_data@.len() > 0 && raw_data@.len() % 2 == 0),
{
    raw_data.len() > 0 && raw_data.len() % 2 == 0
}

/// Converts PCM audio data from 16-bit big-endian (S16BE) format to 16-bit
/// little-endian (S16LE) format. When the input length is odd, the last byte
/// is ignored.
pub fn pcm_s16be_to_pcm_s16le(input: &[u8]) -> (output: Vec<u8>)
    ensures
        output@ == swap_byte_pairs(input@),
        output@.len() == whole_sample_bytes(input@.len()),
        output@.len() == input@.len() - input@.len() % 2,
        forall|k: int|
            0 <= k < input@.len() / 2 ==> #[trigger] output@[2 * k] == input@[2 * k + 1]
                && output@[2 * k + 1] == input@[2 * k],
{
    let len = input.len();
    let pairs = len / 2;
    let mut output: Vec<u8> = Vec::with_capacity(2 * pairs);
    let mut k: usize = 0;
    while k < pairs
        invariant
            len == input@.len(),
            pairs == len / 2,
            k <= pairs,
            output@.len() == 2 * k,
            forall|j: int|
                0 <= j < 2 * k ==> #[trigger] output@[j] == (if j % 2 == 0 {
                    input@[j + 1]
                } else {
                    input@[j - 1]
                }),
        decreases pairs - k,
    {
        assert(2 * k + 1 < input@.len()) by (nonlinear_arith)
            requires
                k < pairs,
                pairs == input@.len() / 2,
        ;
        output.push(input[2 * k + 1]);
        output.push(input[2 * k]);
        k = k + 1;
    }
    assert(output@ =~= swap_byte_pairs(input@));
    output
}

/// The signed 16-bit sample stored little-endian in `low` and `high`.
fn sample_from_le_bytes(low: u8, high: u8) -> (sample: i16)
    ensures
        sample as int == sample_value(low, high),
{
    let u: i32 = low as i32 + 256 * (high as i32);
    if u < 0x8000 {
        u as i16
    } else {
        (u - 0x10000) as i16
    }
}

/// Converts a byte slice to a vector of i16 values (little-endian).
/// When the input length is odd, the last byte is ignored.
pub fn bytes_to_i16(bytes: &[u8]) -> (samples: Vec<i16>)
    ensures
        samples@ == decode_le_samples(bytes@),
        samples@.len() == bytes@.len() / 2,
        forall|i: int|
            0 <= i < bytes@.len() / 2 ==> #[trigger] samples@[i] as int == bytes@[2 * i] as int + 256
                * bytes@[2 * i + 1] as int - (if bytes@[2 * i + 1] >= 128 {
                65536int
            } else {
                0int
            }),
{
    let len = bytes.len();
    let count = len / 2;
    let mut samples: Vec<i16> = Vec::with_capacity(count);
    let mut k: usize = 0;
    while k < count
        invariant
            len == bytes@.len(),
            count == len / 2,
            k <= count,
            samples@.len() == k,
            forall|j: int|
                0 <= j < k ==> #[trigger] samples@[j] as int == sample_value(
                    bytes@[2 * j],
                    bytes@[2 * j + 1],
                ),
        decreases count - k,
    {
        assert(2 * k + 1 < bytes@.len()) by (nonlinear_arith)
            requires
                k < count,
                count == bytes@.len() / 2,
        ;
        let sample = sample_from_le_bytes(bytes[2 * k], bytes[2 * k + 1]);
        samples.push(sample);
        k = k + 1;
    }
    assert(samples@ =~= decode_le_samples(bytes@));
    samples
}

/// Converting byte order twice gives back the whole samples of the input:
/// the conversion is its own inverse on data of even length.
pub proof fn lemma_byte_order_conversion_is_involution(data: Seq<u8>)
    ensures
        swap_byte_pairs(swap_byte_pairs(data)) == data.take(whole_sample_bytes(data.len()) as int),
        spec_is_pcm_raw(data) ==> swap_byte_pairs(swap_byte_pairs(data)) == data,
{
    let once = swap_byte_pairs(data);
    let n = whole_sample_bytes(data.len());
    assert(once.len() == n);
    assert(whole_sample_bytes(n) == n);
    assert(swap_byte_pairs(once) =~= data.take(n as int));
    if spec_is_pcm_raw(data) {
        assert(data.take(n as int) =~= data);
    }
}

/// Decoding converted big-endian data as little-endian samples yields the
/// big-endian reading of the original bytes.
pub proof fn lemma_converted_big_endian_decodes_as_big_endian(data: Seq<u8>)
    ensures
        decode_le_samples(swap_byte_pairs(data)) == decode_be_samples(data),
{
    let swapped = swap_byte_pairs(data);
    assert(swapped.len() / 2 == data.len() / 2);
    assert forall|i: int| 0 <= i < data.len() / 2 implies #[trigger] decode_le_samples(swapped)[i]
        == decode_be_samples(data)[i] by {
        assert((2 * i) % 2 == 0);
        assert((2 * i + 1) % 2 == 1);
        assert(swapped[2 * i] == data[2 * i + 1]);
        assert(swapped[2 * i + 1] == data[2 * i]);
    }
    assert(decode_le_samples(swapped) =~= decode_be_samples(data));
}

/// Raw PCM data loses no byte: the byte-order conversion keeps its length and
/// decoding turns every two bytes into one sample.
pub proof fn lemma_pcm_raw_is_decoded_whole(data: Seq<u8>)
    requires
        spec_is_pcm_raw(data),
    ensures
        swap_byte_pairs(data).len() == data.len(),
        2 * decode_le_samples(data).len() == data.len(),
        decode_le_samples(data).len() > 0,
{
}

/// Sample `i` of the little-endian decoding is the two's-complement value
/// of byte `2i` (low) and byte `2i + 1` (high), whatever the input length;
/// in the big-endian decoding the two bytes change roles.
pub proof fn lemma_little_endian_sample_value(data: Seq<u8>, i: int)
    requires
        0 <= i < data.len() / 2,
    ensures
        decode_le_samples(data).len() == data.len() / 2,
        decode_le_samples(data)[i] as int == data[2 * i] as int + 256 * data[2 * i + 1] as int - (
        if data[2 * i + 1] >= 128 {
            65536int
        } else {
            0int
        }),
        decode_le_samples(data)[i] >= 0 <==> data[2 * i + 1] < 128,
        decode_be_samples(data).len() == data.len() / 2,
        decode_be_samples(data)[i] as int == data[2 * i + 1] as int + 256 * data[2 * i] as int - (
        if data[2 * i] >= 128 {
            65536int
        } else {
            0int
        }),
{
}

/// Output byte `j` of the byte-order conversion is the other byte of the
/// same input sample, unchanged.
pub proof fn lemma_byte_order_conversion_moves_bytes(data: Seq<u8>, j: int)
    requires
        0 <= j < data.len() - data.len() % 2,
    ensures
        swap_byte_pairs(data).len() == data.len() - data.len() % 2,
        j % 2 == 0 ==> swap_byte_pairs(data)[j] == data[j + 1],
        j % 2 == 1 ==> swap_byte_pairs(data)[j] == data[j - 1],
{
}

/// Decoding works sample by sample: the decoding of two payloads joined
/// after whole samples is the decoding of the first followed by that of the
/// second.
pub proof fn lemma_decoding_splits_at_whole_samples(a: Seq<u8>, b: Seq<u8>)
    requires
        a.len() % 2 == 0,
    ensures
        decode_le_samples(a + b) == decode_le_samples(a) + decode_le_samples(b),
        decode_be_samples(a + b) == decode_be_samples(a) + decode_be_samples(b),
{
    let ab = a + b;
    let h = a.len() / 2;
    assert(a.len() == 2 * h);
    assert(ab.len() / 2 == h + b.len() / 2);
    assert forall|i: int| 0 <= i < ab.len() / 2 implies #[trigger] decode_le_samples(ab)[i] == (
    decode_le_samples(a) + decode_le_samples(b))[i] && decode_be_samples(ab)[i] == (
    decode_be_samples(a) + decode_be_samples(b))[i] by {
        if i < h {
            assert(ab[2 * i] == a[2 * i]);
            assert(ab[2 * i + 1] == a[2 * i + 1]);
        } else {
            let k = i - h;
            assert(2 * i == a.len() + 2 * k);
            assert(ab[2 * i] == b[2 * k]);
            assert(ab[2 * i + 1] == b[2 * k + 1]);
        }
    }
    assert(decode_le_samples(ab) =~= decode_le_samples(a) + decode_le_samples(b));
    assert(decode_be_samples(ab) =~= decode_be_samples(a) + decode_be_samples(b));
}

/// The byte-order conversion works sample by sample: converting two payloads
/// joined after whole samples converts each of them.
pub proof fn lemma_byte_order_conversion_splits_at_whole_samples(a: Seq<u8>, b: Seq<u8>)
    requires
        a.len() % 2 == 0,
    ensures
        swap_byte_pairs(a + b) == swap_byte_pairs(a) + swap_byte_pairs(b),
{
    let ab = a + b;
    let h = a.len() / 2;
    assert(a.len() == 2 * h);
    assert(whole_sample_bytes(ab.len()) == whole_sample_bytes(a.len()) + whole_sample_bytes(
        b.len(),
    ));
    assert forall|j: int| 0 <= j < whole_sample_bytes(ab.len()) implies #[trigger] swap_byte_pairs(
        ab,
    )[j] == (swap_byte_pairs(a) + swap_byte_pairs(b))[j] by {
        if j < a.len() {
            assert(ab[j] == a[j]);
            if j % 2 == 0 {
                assert(ab[j + 1] == a[j + 1]);
            } else {
                assert(ab[j - 1] == a[j - 1]);
            }
        } else {
            let k = j - a.len();
            assert(k % 2 == j % 2);
            if j % 2 == 0 {
                assert(ab[j + 1] == b[k + 1]);
            } else {
                assert(ab[j - 1] == b[k - 1]);
            }
        }
    }
    assert(swap_byte_pairs(ab) =~= swap_byte_pairs(a) + swap_byte_pairs(b));
}

/// Any two bytes make raw PCM, and appending whole samples to raw PCM keeps
/// it raw PCM: there is no upper bound on the length.
pub proof fn lemma_pcm_raw_grows_by_whole_samples(data: Seq<u8>, more: Seq<u8>, low: u8, high: u8)
    ensures
        spec_is_pcm_raw(seq![low, high]),
        spec_is_pcm_raw(data) && more.len() % 2 == 0 ==> spec_is_pcm_raw(data + more),
        spec_is_pcm_raw(data) ==> spec_is_pcm_raw(data.push(low).push(high)),
        !spec_is_pcm_raw(Seq::<u8>::empty()),
        data.len() % 2 == 1 ==> !spec_is_pcm_raw(data),
{
}

} // verus!
