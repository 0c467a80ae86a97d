//! The structured filler: re-encodes a WAV file with every sample set to the
//! canonical zero, preserving the format descriptor and the sample count.
//!
//! The codec itself is `hound`, driven over in-memory buffers; the two
//! wrappers below carry its contracts, and everything around them is
//! verified.

use crate::error::Error;
use vstd::prelude::*;

verus! {

/// How a WAV file stores a sample: as an integer, or as an IEEE float.
#[derive(Clone, Copy, Debug, PartialEq, Eq, Structural)]
pub enum SampleFormat {
    Int,
    Float,
}

/// The format descriptor of a WAV file: the header parameters needed to
/// reconstruct a container of the same shape.
#[derive(Clone, Copy, Debug, PartialEq, Eq, Structural)]
pub struct AudioSpec {
    pub channels: u16,
    pub sample_rate: u32,
    pub bits_per_sample: u16,
    pub sample_format: SampleFormat,
}

/// What `hound`'s reader extracts from a byte sequence: the format descriptor
/// and the total sample count, or nothing when the bytes are not a parseable
/// WAV file. Parsing an in-memory buffer depends on the bytes alone.
pub uninterp spec fn wav_header_of(b: Seq<u8>) -> Option<(AudioSpec, u32)>;

/// The byte sequence `hound`'s writer produces for a descriptor and a sample
/// sequence, or nothing when the writer rejects them. Encoding into an
/// in-memory buffer depends on the two arguments alone.
pub uninterp spec fn wav_encoding(s: AudioSpec, samples: Seq<i16>) -> Option<Seq<u8>>;

/// The sample values that `hound` decodes from a WAV byte sequence, for
/// files whose samples were written from 16-bit integers.
pub uninterp spec fn wav_samples_of(b: Seq<u8>) -> Seq<i16>;

/// `n` zero samples: the canonical zero of every integer sample encoding.
pub open spec fn zero_samples(n: nat) -> Seq<i16> {
    Seq::new(n, |i: int| 0i16)
}

/// The container bytes that hold one sample of `bits` bits.
pub open spec fn bytes_per_sample(bits: u16) -> int {
    (bits + 7) / 8
}

/// The bit depths `hound`'s writer accepts.
pub open spec fn writable_bits(bits: u16) -> bool {
    bits == 8 || bits == 16 || bits == 24 || bits == 32
}

/// The descriptors and counts this filler re-encodes. Beyond these, `hound`'s
/// writer would either reject the data anyway, overflow a header field, or
/// abort instead of returning an error, so the filler refuses them up front
/// and leaves the input untouched:
/// a zero sample rate, a float format at a depth other than 32 bits, a byte
/// rate above its 32-bit header field, a data size within a header's length
/// (68 bytes at most) of the 32-bit file size field, and a block alignment
/// above its 16-bit header field.
pub open spec fn fill_safe(s: AudioSpec, n: nat) -> bool {
    &&& s.sample_rate >= 1
    &&& s.sample_format is Float ==> s.bits_per_sample == 32
    &&& s.sample_rate * bytes_per_sample(s.bits_per_sample) * s.channels <= u32::MAX
    &&& n * bytes_per_sample(s.bits_per_sample) + 68 <= u32::MAX
    &&& bytes_per_sample(s.bits_per_sample) * s.channels <= u16::MAX
}

/// The arguments on which `hound`'s writer returns instead of aborting, for
/// the bit depths it accepts at all: at least one channel, a nonzero sample
/// rate, floats only at 32 bits, and sizes that fit the header arithmetic
/// (the byte rate in 32 bits, and the data plus a header — 68 bytes at most —
/// in the 32-bit file size).
pub open spec fn encode_call_safe(s: AudioSpec, n: nat) -> bool {
    writable_bits(s.bits_per_sample) ==> {
        &&& s.channels >= 1
        &&& s.sample_rate >= 1
        &&& s.sample_format is Float ==> s.bits_per_sample == 32
        &&& s.sample_rate * bytes_per_sample(s.bits_per_sample) * s.channels <= u32::MAX
        &&& n * bytes_per_sample(s.bits_per_sample) + 68 <= u32::MAX
    }
}

/// What filling a WAV byte sequence yields: parse the header, then encode the
/// same descriptor with every sample zeroed; nothing when the bytes do not
/// parse, when the descriptor is outside `fill_safe`, or when the encoder
/// rejects the job.
pub open spec fn wav_fill_result(c: Seq<u8>) -> Option<Seq<u8>> {
    match wav_header_of(c) {
        Some(h) => if fill_safe(h.0, h.1 as nat) {
            wav_encoding(h.0, zero_samples(h.1 as nat))
        } else {
            None
        },
        None => None,
    }
}

/// Relies on `hound::WavReader::new`, `WavReader::spec` and `WavReader::len`:
/// parsing an in-memory WAV byte sequence yields its format descriptor and
/// its total sample count, and is a function of the bytes alone. The reader
/// rejects a fmt chunk that declares zero channels, so a parsed descriptor
/// has at least one.
#[verifier::external_body]
fn parse_wav(bytes: &Vec<u8>) -> (r: Result<(AudioSpec, u32), hound::Error>)
    ensures
        r is Ok <==> wav_header_of(bytes@) is Some,
        r matches Ok(h) ==> wav_header_of(bytes@) == Some(h) && h.0.channels >= 1,
{
    let reader = hound::WavReader::new(std::io::Cursor::new(bytes.as_slice()))?;
    let s = reader.spec();
    let sample_format = match s.sample_format {
        hound::SampleFormat::Int => SampleFormat::Int,
        hound::SampleFormat::Float => SampleFormat::Float,
    };
    let channels = s.channels;
    let spec = AudioSpec { channels, sample_rate: s.sample_rate, bits_per_sample: s.bits_per_sample, sample_format };
    Ok((spec, reader.len()))
}

/// Relies on `hound::WavWriter::new`, `WavWriter::write_sample::<i16>` and
/// `WavWriter::finalize`: encoding a descriptor and a sample sequence into an
/// in-memory WAV buffer is a function of the two arguments alone. A buffer
/// the writer finalizes parses back, through `hound`'s own reader, to the
/// same descriptor and sample count, and decodes to the same sample values,
/// as long as the block alignment fits its 16-bit header field; the sample
/// values are pinned only for the integer format, since a float container
/// stores them as float bit patterns.
#[verifier::external_body]
fn encode_wav(s: AudioSpec, samples: &Vec<i16>) -> (r: Result<Vec<u8>, hound::Error>)
    requires
        encode_call_safe(s, samples@.len() as nat),
    ensures
        r is Ok <==> wav_encoding(s, samples@) is Some,
        r matches Ok(out) ==> Some(out@) == wav_encoding(s, samples@),
        r matches Ok(out) ==> (bytes_per_sample(s.bits_per_sample) * s.channels <= u16::MAX ==> {
            &&& wav_header_of(out@) == Some((s, samples@.len() as u32))
            &&& s.sample_format is Int ==> wav_samples_of(out@) == samples@
        }),
{
    let sample_format = match s.sample_format {
        SampleFormat::Int => hound::SampleFormat::Int,
        SampleFormat::Float => hound::SampleFormat::Float,
    };
    let channels = s.channels;
    let spec = hound::WavSpec { channels, sample_rate: s.sample_rate, bits_per_sample: s.bits_per_sample, sample_format };
    let mut buf: Vec<u8> = Vec::new();
    let mut writer = hound::WavWriter::new(std::io::Cursor::new(&mut buf), spec)?;
    for sample in samples.iter() {
        writer.write_sample(*sample)?;
    }
    writer.finalize()?;
    Ok(buf)
}

/// Relies on `hound::Error::Unsupported` being a plain variant: builds the
/// error this filler reports for a descriptor it refuses to re-encode.
#[verifier::external_body]
fn unsupported_error() -> hound::Error {
    hound::Error::Unsupported
}

/// `n` zero samples as a vector.
fn make_zero_samples(n: u32) -> (v: Vec<i16>)
    ensures
        v@ == zero_samples(n as nat),
{
    let mut v: Vec<i16> = Vec::new();
    let mut i: u32 = 0;
    while i < n
        invariant
            0 <= i <= n,
            v@ == zero_samples(i as nat),
        decreases n - i,
    {
        v.push(0i16);
        i = i + 1;
        proof {
            assert(v@ =~= zero_samples(i as nat));
        }
    }
    v
}

/// Replaces a WAV file, given as its bytes, by one with the same format
/// descriptor and sample count and every sample set to zero. Returns the
/// codec's error when the bytes do not parse as WAV — the input is then left
/// untouched — or when the descriptor cannot be re-encoded.
pub fn fill_wav(content: &Vec<u8>) -> (r: Result<Vec<u8>, Error>)
    ensures
        r is Ok <==> wav_fill_result(content@) is Some,
        r matches Ok(out) ==> Some(out@) == wav_fill_result(content@),
        r matches Err(e) ==> e matches Error::Wav(_),
        r matches Ok(out) ==> wav_header_of(out@) == wav_header_of(content@),
        r matches Ok(out) ==> (wav_header_of(content@) matches Some(h) ==> (h.0.sample_format
            is Int ==> wav_samples_of(out@) == zero_samples(h.1 as nat))),
        r matches Ok(out) ==> wav_fill_result(out@) == Some(out@),
{
    let (s, n) = match parse_wav(content) {
        Ok(h) => h,
        Err(e) => {
            return Err(Error::Wav(e));
        },
    };

    // Refuse up front what hound's writer would abort on or encode into a
    // header it cannot represent; see `fill_safe`.
    let bps: u64 = ((s.bits_per_sample as u64) + 7) / 8;
    let ok_rate = s.sample_rate >= 1;
    let ok_float = match s.sample_format {
        SampleFormat::Int => true,
        SampleFormat::Float => s.bits_per_sample == 32,
    };
    proof {
        assert(bps <= 8192);
        assert((s.sample_rate as u64) * bps <= u64::MAX && ((s.sample_rate as u64) * bps) * (
        s.channels as u64) <= u64::MAX && (n as u64) * bps + 68 <= u64::MAX && bps * (s.channels
            as u64) <= u64::MAX) by (nonlinear_arith)
            requires
                s.sample_rate <= u32::MAX,
                0 <= bps <= 8192,
                s.channels <= u16::MAX,
                n <= u32::MAX,
        ;
    }
    let ok_rate_prod = (s.sample_rate as u64) * bps * (s.channels as u64) <= (u32::MAX as u64);
    let ok_n_prod = (n as u64) * bps + 68 <= (u32::MAX as u64);
    let ok_block = bps * (s.channels as u64) <= (u16::MAX as u64);
    if !(ok_rate && ok_float && ok_rate_prod && ok_n_prod && ok_block) {
        assert(!fill_safe(s, n as nat));
        return Err(Error::Wav(unsupported_error()));
    }
    assert(fill_safe(s, n as nat));

    let zeros = make_zero_samples(n);
    match encode_wav(s, &zeros) {
        Ok(out) => {
            proof {
                assert(wav_fill_result(out@) == Some(out@));
            }
            Ok(out)
        },
        Err(e) => Err(Error::Wav(e)),
    }
}

} // verus!
