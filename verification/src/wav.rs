//! Recordings as WAVE files: one channel, 16 bits per sample.
use crate::bytes::{le16, le16_all, le32};
use vstd::prelude::*;

verus! {

/// Samples per second of every recording.
pub const SAMPLE_RATE: u32 = 16000;

/// The channels of every recording.
pub const CHANNELS: u16 = 1;

/// The bits of each sample.
pub const BITS_PER_SAMPLE: u16 = 16;

/// The 44 bytes before the samples of a one-channel 16-bit PCM file.
pub open spec fn wav_header(rate: int, data_len: nat) -> Seq<u8> {
    // "RIFF", the bytes that follow, "WAVE"
    seq![0x52u8, 0x49u8, 0x46u8, 0x46u8] + le32(36 + data_len as int) + seq![
        0x57u8,
        0x41u8,
        0x56u8,
        0x45u8,
    ]
    // "fmt ", its length, PCM, one channel
     + seq![0x66u8, 0x6du8, 0x74u8, 0x20u8] + le32(16) + le16(1) + le16(1)
    // rate, bytes per second, bytes per frame, bits per sample
     + le32(rate) + le32(2 * rate) + le16(2) + le16(16)
    // "data", its length
     + seq![0x64u8, 0x61u8, 0x74u8, 0x61u8] + le32(data_len as int)
}

/// The file that holds `samples` at `rate` samples per second.
pub open spec fn wav_file(rate: int, samples: Seq<i16>) -> Seq<u8> {
    wav_header(rate, 2 * samples.len()) + le16_all(samples)
}

/// The samples fit a file: the lengths in the header are 32 bits wide, and the
/// file is held in memory.
pub open spec fn fits_wav(count: nat) -> bool {
    36 + 2 * count <= u32::MAX && 44 + 2 * count <= isize::MAX
}

/// Tells whether as many samples fit a file.
pub fn wav_fits(count: usize) -> (r: bool)
    ensures
        r == fits_wav(count as nat),
{
    count as u64 <= (u32::MAX as u64 - 36) / 2 && count as u64 <= (isize::MAX as u64 - 44) / 2
}

/// `std::io::Cursor`.
#[verifier::external_type_specification]
#[verifier::external_body]
#[verifier::reject_recursive_types(T)]
pub struct ExCursor<T>(std::io::Cursor<T>);

/// `hound::Error`.
#[verifier::external_type_specification]
#[verifier::external_body]
pub struct ExHoundError(hound::Error);

/// A `hound::WavWriter` that fills a buffer in memory.
#[verifier::external_body]
pub struct Recorder<'a> {
    writer: hound::WavWriter<&'a mut std::io::Cursor<Vec<u8>>>,
}

/// What the buffer holds.
pub uninterp spec fn buffer_bytes(c: std::io::Cursor<Vec<u8>>) -> Seq<u8>;

/// Where the buffer is read or written next.
pub uninterp spec fn buffer_position(c: std::io::Cursor<Vec<u8>>) -> u64;

/// The samples that were written so far.
pub uninterp spec fn recorder_samples(w: Recorder) -> Seq<i16>;

/// The sample rate that the recorder was made with.
pub uninterp spec fn recorder_rate(w: Recorder) -> u32;

/// What the buffer that the recorder borrows holds when the borrow ends.
pub uninterp spec fn recorder_output(w: Recorder) -> Seq<u8>;

/// `hound::WavWriter::new` succeeds on an empty buffer in memory.
pub uninterp spec fn hound_opens(channels: u16, rate: u32, bits_per_sample: u16) -> bool;

/// `hound::WavWriter::write_sample` succeeds in memory, at this rate and after
/// these samples.
pub uninterp spec fn hound_takes(rate: u32, before: Seq<i16>, sample: i16) -> bool;

/// `hound::WavWriter::finalize` succeeds in memory, at this rate and after
/// these samples.
pub uninterp spec fn hound_finishes(rate: u32, samples: Seq<i16>) -> bool;

/// Every call into `hound` that writing `samples` takes succeeds.
pub open spec fn hound_writes(samples: Seq<i16>) -> bool {
    &&& hound_opens(CHANNELS, SAMPLE_RATE, BITS_PER_SAMPLE)
    &&& forall|i: int|
        0 <= i < samples.len() ==> hound_takes(SAMPLE_RATE, samples.take(i), #[trigger] samples[i])
    &&& hound_finishes(SAMPLE_RATE, samples)
}

/// `std::io::Cursor::new`: the position is 0 and the contents are those of
/// the vector.
#[verifier::external_body]
fn buffer_over(inner: Vec<u8>) -> (r: std::io::Cursor<Vec<u8>>)
    ensures
        buffer_bytes(r) == inner@,
        buffer_position(r) == 0,
{
    std::io::Cursor::new(inner)
}

/// `std::io::Cursor::into_inner`: the vector under the cursor.
#[verifier::external_body]
fn buffer_into_inner(c: std::io::Cursor<Vec<u8>>) -> (r: Vec<u8>)
    ensures
        r@ == buffer_bytes(c),
{
    c.into_inner()
}

/// `hound::WavWriter::new` with integer samples: a writer that holds no
/// samples yet and keeps the rate it was given. Whether it succeeds depends on
/// the format alone, and is named and not spelled out: an error comes from the
/// buffer, and nothing is said of when writing to memory fails.
#[verifier::external_body]
fn recorder_new<'a>(
    buf: &'a mut std::io::Cursor<Vec<u8>>,
    channels: u16,
    sample_rate: u32,
    bits_per_sample: u16,
) -> (r: Result<Recorder<'a>, hound::Error>)
    requires
        buffer_bytes(*old(buf)).len() == 0,
        buffer_position(*old(buf)) == 0,
        channels == 1,
        bits_per_sample == 16,
        0 < sample_rate <= u32::MAX / 2,
    ensures
        r is Ok == hound_opens(channels, sample_rate, bits_per_sample),
        r matches Ok(w) ==> recorder_samples(w).len() == 0 && recorder_rate(w) == sample_rate
            && recorder_output(w) == buffer_bytes(*final(buf)),
{
    let sample_format = hound::SampleFormat::Int;
    let spec = hound::WavSpec { channels, sample_rate, bits_per_sample, sample_format };
    hound::WavWriter::new(buf, spec).map(|writer| Recorder { writer })
}

/// `hound::WavWriter::write_sample`: the sample comes after those before it.
/// Whether it succeeds depends on the rate, the samples before and the sample,
/// and is named and not spelled out: an error comes from the buffer, and then
/// the writer is given up.
#[verifier::external_body]
fn recorder_write<'a>(w: Recorder<'a>, sample: i16) -> (r: Result<Recorder<'a>, hound::Error>)
    requires
        fits_wav(recorder_samples(w).len() + 1),
    ensures
        r is Ok == hound_takes(recorder_rate(w), recorder_samples(w), sample),
        r matches Ok(out) ==> recorder_samples(out) == recorder_samples(w).push(sample)
            && recorder_rate(out) == recorder_rate(w) && recorder_output(out) == recorder_output(w),
{
    let mut w = w;
    w.writer.write_sample(sample).map(|()| w)
}

/// `hound::WavWriter::finalize`: the buffer is left with the header and the
/// samples, two bytes each. Whether it succeeds depends on the rate and the
/// samples, and is named and not spelled out: an error comes from the buffer.
#[verifier::external_body]
fn recorder_finalize(w: Recorder) -> (r: Result<(), hound::Error>)
    requires
        fits_wav(recorder_samples(w).len()),
    ensures
        r is Ok == hound_finishes(recorder_rate(w), recorder_samples(w)),
        r is Ok ==> recorder_output(w) == wav_file(recorder_rate(w) as int, recorder_samples(w)),
{
    w.writer.finalize()
}

/// Writes the file that holds `samples`. It fails only where a call into
/// `hound` does, that is where writing to memory fails.
pub fn encode_wav(samples: &Vec<i16>) -> (r: Result<Vec<u8>, String>)
    requires
        fits_wav(samples@.len()),
    ensures
        r is Ok == hound_writes(samples@),
        r matches Ok(file) ==> file@ == wav_file(SAMPLE_RATE as int, samples@),
{
    let mut buf = buffer_over(Vec::new());
    let mut w = match recorder_new(&mut buf, CHANNELS, SAMPLE_RATE, BITS_PER_SAMPLE) {
        Ok(w) => w,
        Err(e) => {
            return Err(e.to_string());
        },
    };
    proof {
        assert(recorder_samples(w) =~= samples@.take(0));
    }
    let mut i: usize = 0;
    while i < samples.len()
        invariant
            i <= samples@.len(),
            fits_wav(samples@.len()),
            recorder_samples(w) == samples@.take(i as int),
            recorder_rate(w) == SAMPLE_RATE,
            hound_opens(CHANNELS, SAMPLE_RATE, BITS_PER_SAMPLE),
            forall|j: int|
                0 <= j < i ==> hound_takes(
                    SAMPLE_RATE,
                    samples@.take(j),
                    #[trigger] samples@[j],
                ),
            recorder_output(w) == buffer_bytes(after_borrow(buf)),
        decreases samples@.len() - i,
    {
        w = match recorder_write(w, samples[i]) {
            Ok(w) => w,
            Err(e) => {
                return Err(e.to_string());
            },
        };
        proof {
            assert(samples@.take(i + 1) =~= samples@.take(i as int).push(samples@[i as int]));
        }
        i = i + 1;
    }
    proof {
        assert(samples@.take(samples@.len() as int) =~= samples@);
    }
    match recorder_finalize(w) {
        Ok(()) => Ok(buffer_into_inner(buf)),
        Err(e) => Err(e.to_string()),
    }
}

/// The header is 44 bytes long and each sample takes two.
pub proof fn law_wav_length(rate: int, samples: Seq<i16>)
    ensures
        wav_file(rate, samples).len() == 44 + 2 * samples.len(),
{
    crate::bytes::lemma_le16_all_len(samples);
}

/// A file gives the samples back: different recordings are different files.
pub proof fn law_wav_keeps_samples(rate: int, a: Seq<i16>, b: Seq<i16>)
    ensures
        wav_file(rate, a) == wav_file(rate, b) ==> a == b,
{
    if wav_file(rate, a) == wav_file(rate, b) {
        assert(wav_file(rate, a).skip(44) =~= le16_all(a));
        assert(wav_file(rate, b).skip(44) =~= le16_all(b));
        crate::bytes::lemma_le16_all_injective(a, b);
    }
}

/// A file holds the samples in the order recorded: after 44 bytes, each sample
/// in two bytes, the low one first, and nothing after the last.
pub proof fn law_wav_holds_samples_in_order(samples: Vec<i16>, file: Vec<u8>)
    requires
        call_ensures(encode_wav, (&samples,), Ok(file)),
    ensures
        file@.len() == 44 + 2 * samples@.len(),
        forall|i: int|
            0 <= i < samples@.len() ==> file@[44 + 2 * i] as int + 256 * file@[45 + 2 * i] as int
                == (#[trigger] samples@[i]) + (if samples@[i] < 0 {
                65536int
            } else {
                0
            }),
{
    let data = le16_all(samples@);
    crate::bytes::lemma_le16_all_len(samples@);
    let head = wav_header(SAMPLE_RATE as int, 2 * samples@.len());
    assert(head.len() == 44);
    assert forall|i: int| 0 <= i < samples@.len() implies file@[44 + 2 * i] as int + 256 * file@[45
        + 2 * i] as int == (#[trigger] samples@[i]) + (if samples@[i] < 0 {
        65536int
    } else {
        0
    }) by {
        crate::bytes::lemma_le16_all_at(samples@, i);
        assert((head + data)[44 + 2 * i] == data[2 * i]);
        assert((head + data)[45 + 2 * i] == data[2 * i + 1]);
    }
}

/// Before the samples a file says what it is: a RIFF file of the type WAVE, in
/// PCM, one channel, 16000 samples and 32000 bytes per second, two bytes per
/// sample, 16 bits each; and how long it is and how long its samples are.
pub proof fn law_wav_says_what_it_holds(samples: Vec<i16>, file: Vec<u8>)
    requires
        fits_wav(samples@.len()),
        call_ensures(encode_wav, (&samples,), Ok(file)),
    ensures
        file@.subrange(0, 4) == seq![82u8, 73, 70, 70],
        file@.subrange(8, 24) == seq![87u8, 65, 86, 69, 102, 109, 116, 32, 16, 0, 0, 0, 1, 0, 1, 0],
        file@.subrange(24, 40) == seq![
            128u8,
            62,
            0,
            0,
            0,
            125,
            0,
            0,
            2,
            0,
            16,
            0,
            100,
            97,
            116,
            97,
        ],
        file@[4] as int + 256 * file@[5] + 65536 * file@[6] + 16777216 * file@[7] == file@.len() - 8,
        file@[40] as int + 256 * file@[41] + 65536 * file@[42] + 16777216 * file@[43] == file@.len()
            - 44,
{
    crate::bytes::lemma_le16_all_len(samples@);
    let n = 2 * samples@.len();
    let head = wav_header(SAMPLE_RATE as int, n);
    assert(head.len() == 44);
    assert(file@.subrange(0, 44) =~= head);
    let riff = le32(36 + n as int);
    let data = le32(n as int);
    assert(head.subrange(4, 8) =~= riff);
    assert(head.subrange(40, 44) =~= data);
    assert(forall|i: int| 0 <= i < 4 ==> head[4 + i] == #[trigger] riff[i]);
    assert(forall|i: int| 0 <= i < 4 ==> head[40 + i] == #[trigger] data[i]);
    crate::bytes::lemma_le32_value((36 + n) as u32);
    crate::bytes::lemma_le32_value(n as u32);
    assert(file@.subrange(0, 4) =~= seq![82u8, 73, 70, 70]);
    assert(file@.subrange(8, 24) =~= seq![
        87u8, 65, 86, 69, 102, 109, 116, 32, 16, 0, 0, 0, 1, 0, 1, 0,
    ]);
    assert(file@.subrange(24, 40) =~= seq![
        128u8, 62, 0, 0, 0, 125, 0, 0, 2, 0, 16, 0, 100, 97, 116, 97,
    ]);
}

/// A file is written exactly if `hound` opens it for one channel, 16000 samples
/// per second and 16 bits, takes each sample after those before it, and
/// finishes: no recording is turned away for what it holds.
pub proof fn law_wav_is_written_where_hound_writes(
    samples: Vec<i16>,
    r: Result<Vec<u8>, String>,
)
    requires
        call_ensures(encode_wav, (&samples,), r),
    ensures
        r is Ok <==> (hound_opens(1, 16000, 16) && hound_finishes(16000, samples@) && forall|i: int|
            0 <= i < samples@.len() ==> hound_takes(
                16000,
                samples@.take(i),
                #[trigger] samples@[i],
            )),
{
}

/// As many samples fit as leave the lengths in the header 32 bits wide and the
/// file within memory.
pub proof fn law_wav_fits(count: usize, r: bool)
    requires
        call_ensures(wav_fits, (count,), r),
    ensures
        r <==> 2 * count + 36 < 0x1_0000_0000 && 2 * count + 44 <= isize::MAX,
{
}

/// Every recording whose file fits is written, whatever it holds.
pub proof fn law_every_recording_that_fits_is_taken(samples: Vec<i16>)
    requires
        36 + 2 * samples@.len() <= u32::MAX,
        44 + 2 * samples@.len() <= isize::MAX,
    ensures
        call_requires(encode_wav, (&samples,)),
{
}

}
