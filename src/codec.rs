//! WAV framing of interleaved 16-bit PCM (2 channels, 48 kHz).

use byteorder::{LittleEndian, WriteBytesExt};
use vstd::prelude::*;

verus! {

/// Number of interleaved channels in every container this library writes.
pub const CHANNELS: u16 = 2;

/// Sample rate, in Hz, of every container this library writes.
pub const SAMPLE_RATE: u32 = 48000;

/// Width of one sample in bits.
pub const BITS_PER_SAMPLE: u16 = 16;

/// Length in bytes of the canonical PCM WAV header (RIFF, fmt and data chunk heads).
pub const HEADER_LEN: usize = 44;

/// The header that hound writes for a stream of unknown length with the
/// given channel count, sample rate and sample width (integer samples).
pub uninterp spec fn infinite_wav_header(channels: u16, sample_rate: u32, bits_per_sample: u16) -> Seq<u8>;

/// The two's-complement value of `n` as an unsigned 16-bit quantity.
pub open spec fn unsigned16(n: i16) -> int {
    if n < 0 {
        n + 65536
    } else {
        n as int
    }
}

/// Little-endian bytes of one sample.
pub open spec fn le_bytes(n: i16) -> Seq<u8> {
    seq![(unsigned16(n) % 256) as u8, (unsigned16(n) / 256) as u8]
}

/// Little-endian bytes of a whole sample sequence, in order.
pub open spec fn le_samples(s: Seq<i16>) -> Seq<u8>
    decreases s.len(),
{
    if s.len() == 0 {
        Seq::empty()
    } else {
        le_samples(s.drop_last()) + le_bytes(s.last())
    }
}

/// The sample that the little-endian byte pair `(lo, hi)` encodes.
pub open spec fn sample_of(lo: u8, hi: u8) -> i16 {
    let v = lo as int + 256 * hi as int;
    if v >= 32768 {
        (v - 65536) as i16
    } else {
        v as i16
    }
}

/// Samples read from a little-endian byte payload, two bytes each.
pub open spec fn samples_of(b: Seq<u8>) -> Seq<i16>
    decreases b.len(),
{
    if b.len() < 2 {
        Seq::empty()
    } else {
        samples_of(b.subrange(0, b.len() - 2)) + seq![sample_of(b[b.len() - 2], b[b.len() - 1])]
    }
}

/// What a container decodes to: the samples after the header, or nothing when
/// the bytes are shorter than a header or the payload has an odd length.
pub open spec fn decoded(bytes: Seq<u8>) -> Option<Seq<i16>> {
    if bytes.len() < HEADER_LEN || (bytes.len() - HEADER_LEN) % 2 != 0 {
        None
    } else {
        Some(samples_of(bytes.subrange(HEADER_LEN as int, bytes.len() as int)))
    }
}

/// The container for `pcm`: hound's header followed by the samples in little-endian order.
pub open spec fn encoded(pcm: Seq<i16>) -> Seq<u8> {
    infinite_wav_header(CHANNELS, SAMPLE_RATE, BITS_PER_SAMPLE) + le_samples(pcm)
}

/// Relies on hound's `WavSpec::into_header_for_infinite_file`: for at most two
/// channels of 16-bit integer samples it writes the 44-byte PCMWAVEFORMAT header,
/// with the RIFF and data sizes set to 0xFFFFFFFF. A zero sample rate would
/// divide by zero and a byte rate beyond `u32` would overflow, so both are excluded.
#[verifier::external_body]
fn wav_header(channels: u16, sample_rate: u32, bits_per_sample: u16) -> (r: Vec<u8>)
    requires
        1 <= channels <= 2,
        bits_per_sample == 16,
        0 < sample_rate,
        sample_rate * 2 * channels <= u32::MAX,
    ensures
        r@ == infinite_wav_header(channels, sample_rate, bits_per_sample),
        r@.len() == HEADER_LEN,
{
    let spec = hound::WavSpec {
        channels,
        sample_rate,
        bits_per_sample,
        sample_format: hound::SampleFormat::Int,
    };
    spec.into_header_for_infinite_file()
}

/// Relies on byteorder's `WriteBytesExt::write_i16::<LittleEndian>`: it writes the two
/// little-endian bytes of `n`, which a `Vec<u8>` appends without fail.
#[verifier::external_body]
fn push_i16_le(out: &mut Vec<u8>, n: i16)
    ensures
        final(out)@ == old(out)@ + le_bytes(n),
{
    let _ = out.write_i16::<LittleEndian>(n);
}

/// Every sequence of samples survives framing and reading back, whatever
/// 44-byte header stands in front of it.
pub proof fn lemma_round_trip(header: Seq<u8>, pcm: Seq<i16>)
    requires
        header.len() == HEADER_LEN,
    ensures
        decoded(header + le_samples(pcm)) == Some(pcm),
{
    lemma_samples_of_le(pcm);
    lemma_le_samples_len(pcm);
    let b = header + le_samples(pcm);
    assert(b.subrange(HEADER_LEN as int, b.len() as int) =~= le_samples(pcm));
}

/// The payload of `n` samples is `2 * n` bytes long.
pub proof fn lemma_le_samples_len(pcm: Seq<i16>)
    ensures
        le_samples(pcm).len() == 2 * pcm.len(),
    decreases pcm.len(),
{
    if pcm.len() > 0 {
        lemma_le_samples_len(pcm.drop_last());
    }
}

/// Reading the little-endian bytes of a sample sequence gives the sequence back.
pub proof fn lemma_samples_of_le(pcm: Seq<i16>)
    ensures
        samples_of(le_samples(pcm)) == pcm,
    decreases pcm.len(),
{
    if pcm.len() > 0 {
        let init = pcm.drop_last();
        let b = le_samples(pcm);
        lemma_samples_of_le(init);
        lemma_le_samples_len(init);
        assert(b.subrange(0, b.len() - 2) =~= le_samples(init));
        let n = pcm.last();
        assert(sample_of(b[b.len() - 2], b[b.len() - 1]) == n);
        assert(pcm =~= init + seq![n]);
    }
}

/// Frames `pcm` as a playable WAV container: 2 channels, 48 kHz, 16-bit
/// little-endian integer samples, sizes marked as unknown.
pub fn pcm_to_wav(pcm: Vec<i16>) -> (wav: Vec<u8>)
    ensures
        wav@ == encoded(pcm@),
        decoded(wav@) == Some(pcm@),
{
    let mut wav = wav_header(CHANNELS, SAMPLE_RATE, BITS_PER_SAMPLE);
    let ghost header = wav@;
    let mut i: usize = 0;
    while i < pcm.len()
        invariant
            0 <= i <= pcm@.len(),
            wav@ == header + le_samples(pcm@.subrange(0, i as int)),
        decreases pcm@.len() - i,
    {
        push_i16_le(&mut wav, pcm[i]);
        proof {
            let next = pcm@.subrange(0, i + 1);
            assert(next.drop_last() =~= pcm@.subrange(0, i as int));
        }
        i = i + 1;
    }
    assert(pcm@.subrange(0, pcm@.len() as int) =~= pcm@);
    proof {
        lemma_round_trip(header, pcm@);
    }
    wav
}

/// Reads the samples back out of a container written by [`pcm_to_wav`]: the
/// bytes after the 44-byte header, two little-endian bytes per sample. Gives
/// `None` when the input is shorter than a header or its payload has an odd length.
pub fn wav_to_pcm(bytes: &[u8]) -> (pcm: Option<Vec<i16>>)
    ensures
        match pcm {
            Some(v) => decoded(bytes@) == Some(v@),
            None => decoded(bytes@) is None,
        },
{
    let n = bytes.len();
    if n < HEADER_LEN || (n - HEADER_LEN) % 2 != 0 {
        return None;
    }
    let ghost payload = bytes@.subrange(HEADER_LEN as int, n as int);
    let mut out: Vec<i16> = Vec::new();
    let mut i: usize = HEADER_LEN;
    while i < n
        invariant
            HEADER_LEN <= i <= n,
            n == bytes@.len(),
            (i - HEADER_LEN) % 2 == 0,
            (n - HEADER_LEN) % 2 == 0,
            payload == bytes@.subrange(HEADER_LEN as int, n as int),
            out@ == samples_of(payload.subrange(0, i - HEADER_LEN)),
        decreases n - i,
    {
        let lo = bytes[i];
        let hi = bytes[i + 1];
        let v: i32 = lo as i32 + 256 * (hi as i32);
        let s: i16 = if v >= 32768 {
            (v - 65536) as i16
        } else {
            v as i16
        };
        out.push(s);
        proof {
            let next = payload.subrange(0, i + 2 - HEADER_LEN);
            assert(next.subrange(0, next.len() - 2) =~= payload.subrange(0, i - HEADER_LEN));
        }
        i = i + 2;
    }
    assert(payload.subrange(0, n - HEADER_LEN) =~= payload);
    Some(out)
}

} // verus!
