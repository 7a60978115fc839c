//! Encoding of captured audio into a mono, 16-bit signed PCM WAV container,
//! and the header parse that recovers a container's sample rate and count.
//!
//! A captured sample is carried as a fixed-point `i64`: the capture float
//! scaled by 32767 and truncated toward zero. Quantization clamps that value
//! to the asymmetric signed 16-bit range `[-32768, 32767]`.

use vstd::arithmetic::div_mod::{
    lemma_basic_div, lemma_div_denominator, lemma_fundamental_div_mod, lemma_small_mod,
};
use vstd::prelude::*;

verus! {

/// Largest sample count for which the RIFF chunk length `36 + 2 * n`
/// still fits the container's 32-bit length fields.
pub const MAX_WAV_SAMPLES: usize = 2147483629;

/// Largest sample rate for which the byte rate `2 * rate` fits a
/// 32-bit header field.
pub const MAX_SAMPLE_RATE: u32 = 2147483647;

/// The signed 16-bit value a scaled sample quantizes to: the asymmetric
/// clamp of the container format, not a symmetric one.
pub open spec fn clamp16(v: int) -> int {
    if v < -32768 {
        -32768
    } else if v > 32767 {
        32767
    } else {
        v
    }
}

/// The PCM samples a sequence of scaled samples quantizes to.
pub open spec fn quantized(s: Seq<i64>) -> Seq<i16> {
    s.map_values(|v: i64| clamp16(v as int) as i16)
}

/// The unsigned 16-bit pattern that stands for a PCM sample in the
/// container: its two's complement.
pub open spec fn sample_bits(x: i16) -> int {
    if x >= 0 {
        x as int
    } else {
        x as int + 65536
    }
}

/// The two little-endian data bytes of one PCM sample.
pub open spec fn sample_bytes(x: i16) -> Seq<u8> {
    seq![(sample_bits(x) % 256) as u8, (sample_bits(x) / 256) as u8]
}

/// The data chunk payload: each sample as two little-endian bytes,
/// in capture order.
pub open spec fn pcm_bytes(s: Seq<i16>) -> Seq<u8>
    decreases s.len(),
{
    if s.len() == 0 {
        Seq::<u8>::empty()
    } else {
        pcm_bytes(s.drop_last()) + sample_bytes(s.last())
    }
}

/// The 44 header bytes of a mono, 16-bit PCM WAV container holding
/// `n` samples at `rate` samples per second: the RIFF chunk, the
/// 16-byte fmt chunk, and the data chunk header.
#[verifier::opaque]
pub open spec fn wav_header(n: int, rate: u32) -> Seq<u8> {
    let riff_len = 36 + 2 * n;
    let data_len = 2 * n;
    let rate_v = rate as int;
    let byte_rate = 2 * rate_v;
    seq![
        // "RIFF", chunk length
        0x52u8,
        0x49u8,
        0x46u8,
        0x46u8,
        (riff_len % 256) as u8,
        ((riff_len / 256) % 256) as u8,
        ((riff_len / 65536) % 256) as u8,
        ((riff_len / 16777216) % 256) as u8,
        // "WAVE"
        0x57u8,
        0x41u8,
        0x56u8,
        0x45u8,
        // "fmt ", chunk length 16
        0x66u8,
        0x6du8,
        0x74u8,
        0x20u8,
        16u8,
        0u8,
        0u8,
        0u8,
        // format 1 (integer PCM), 1 channel
        1u8,
        0u8,
        1u8,
        0u8,
        // sample rate
        (rate_v % 256) as u8,
        ((rate_v / 256) % 256) as u8,
        ((rate_v / 65536) % 256) as u8,
        ((rate_v / 16777216) % 256) as u8,
        // byte rate: two bytes per sample, one channel
        (byte_rate % 256) as u8,
        ((byte_rate / 256) % 256) as u8,
        ((byte_rate / 65536) % 256) as u8,
        ((byte_rate / 16777216) % 256) as u8,
        // block align 2, bits per sample 16
        2u8,
        0u8,
        16u8,
        0u8,
        // "data", chunk length
        0x64u8,
        0x61u8,
        0x74u8,
        0x61u8,
        (data_len % 256) as u8,
        ((data_len / 256) % 256) as u8,
        ((data_len / 65536) % 256) as u8,
        ((data_len / 16777216) % 256) as u8,
    ]
}

/// The whole container: header, then the PCM data.
pub open spec fn wav_bytes(s: Seq<i16>, rate: u32) -> Seq<u8> {
    wav_header(s.len() as int, rate) + pcm_bytes(s)
}

/// The little-endian 32-bit value stored at offset `i`.
pub open spec fn read_u32(b: Seq<u8>, i: int) -> int {
    b[i] + 256 * b[i + 1] + 65536 * b[i + 2] + 16777216 * b[i + 3]
}

/// The little-endian 16-bit value stored at offset `i`.
pub open spec fn read_u16(b: Seq<u8>, i: int) -> int {
    b[i] + 256 * b[i + 1]
}

/// The sample rate and sample count recovered from a container, or
/// `None` where the bytes are not a mono, 16-bit PCM WAV container
/// whose length fields agree with its actual length.
pub open spec fn wav_info_spec(b: Seq<u8>) -> Option<(u32, int)> {
    if b.len() >= 44 && b[0] == 0x52u8 && b[1] == 0x49u8 && b[2] == 0x46u8 && b[3] == 0x46u8
        && read_u32(b, 4) == b.len() - 8 && b[8] == 0x57u8 && b[9] == 0x41u8 && b[10] == 0x56u8
        && b[11] == 0x45u8 && b[12] == 0x66u8 && b[13] == 0x6du8 && b[14] == 0x74u8 && b[15]
        == 0x20u8 && read_u32(b, 16) == 16 && read_u16(b, 20) == 1 && read_u16(b, 22) == 1
        && read_u32(b, 28) == 2 * read_u32(b, 24) && read_u16(b, 32) == 2 && read_u16(b, 34) == 16
        && b[36] == 0x64u8 && b[37] == 0x61u8 && b[38] == 0x74u8 && b[39] == 0x61u8 && read_u32(
        b,
        40,
    ) == b.len() - 44 && (b.len() - 44) % 2 == 0 {
        Some((read_u32(b, 24) as u32, (b.len() - 44) / 2))
    } else {
        None
    }
}

/// Why a sample sequence cannot be encoded.
#[derive(Clone, Copy, Debug, PartialEq, Eq, Structural)]
pub enum EncodeError {
    /// The data chunk would overflow the container's 32-bit length fields.
    TooManySamples,
    /// The byte rate would overflow its 32-bit header field.
    RateTooHigh,
}

impl EncodeError {
    /// The error detail carried by the pipeline's error status.
    pub fn message(&self) -> (r: String)
        ensures
            *self is TooManySamples ==> r@ == "audio too long for the WAV container"@,
            *self is RateTooHigh ==> r@ == "sample rate too high for the WAV container"@,
    {
        match self {
            EncodeError::TooManySamples => String::from_str("audio too long for the WAV container"),
            EncodeError::RateTooHigh => String::from_str(
                "sample rate too high for the WAV container",
            ),
        }
    }
}

/// Clamp a sequence of scaled samples to signed 16-bit PCM.
pub fn quantize(samples: &Vec<i64>) -> (r: Vec<i16>)
    ensures
        r@ == quantized(samples@),
{
    let mut out: Vec<i16> = Vec::new();
    let n = samples.len();
    for i in 0..n
        invariant
            n == samples@.len(),
            out@ == quantized(samples@.take(i as int)),
    {
        let v = samples[i];
        let q: i16 = if v < -32768 {
            -32768
        } else if v > 32767 {
            32767
        } else {
            v as i16
        };
        out.push(q);
        proof {
            assert(samples@.take(i + 1int).drop_last() =~= samples@.take(i as int));
            assert(quantized(samples@.take(i + 1int)) =~= quantized(samples@.take(i as int)).push(
                q,
            ));
        }
    }
    proof {
        assert(samples@.take(n as int) =~= samples@);
    }
    out
}

proof fn lemma_pcm_len(s: Seq<i16>)
    ensures
        pcm_bytes(s).len() == 2 * s.len(),
    decreases s.len(),
{
    if s.len() > 0 {
        lemma_pcm_len(s.drop_last());
    }
}

/// Reading back the four little-endian bytes of a 32-bit value gives
/// that value.
proof fn lemma_le32_read(x: int)
    requires
        0 <= x < 0x100000000,
    ensures
        x % 256 + 256 * ((x / 256) % 256) + 65536 * ((x / 65536) % 256) + 16777216 * ((x
            / 16777216) % 256) == x,
{
    let q1 = x / 256;
    let q2 = x / 65536;
    let q3 = x / 16777216;
    lemma_div_denominator(x, 256, 256);
    lemma_div_denominator(x, 65536, 256);
    assert(q1 / 256 == q2);
    assert(q2 / 256 == q3);
    lemma_fundamental_div_mod(x, 256);
    lemma_fundamental_div_mod(q1, 256);
    lemma_fundamental_div_mod(q2, 256);
    assert(0 <= q3 < 256) by {
        lemma_basic_div(x, 0x100000000);
        lemma_div_denominator(x, 16777216, 256);
    }
    lemma_small_mod(q3 as nat, 256);
    assert(x == x % 256 + 256 * (q1 % 256) + 65536 * (q2 % 256) + 16777216 * q3);
}

/// Reading back the two little-endian bytes of a 16-bit value gives
/// that value.
proof fn lemma_le16_read(x: int)
    requires
        0 <= x < 65536,
    ensures
        x % 256 + 256 * (x / 256) == x,
{
    lemma_fundamental_div_mod(x, 256);
}

/// Append the four little-endian bytes of `x`.
fn push_le32(out: &mut Vec<u8>, x: u32)
    ensures
        final (out)@ == old(out)@ + seq![
            (x as int % 256) as u8,
            ((x as int / 256) % 256) as u8,
            ((x as int / 65536) % 256) as u8,
            ((x as int / 16777216) % 256) as u8,
        ],
{
    out.push((x % 256) as u8);
    out.push(((x / 256) % 256) as u8);
    out.push(((x / 65536) % 256) as u8);
    out.push(((x / 16777216) % 256) as u8);
    proof {
        assert(final (out)@ =~= old(out)@ + seq![
            (x as int % 256) as u8,
            ((x as int / 256) % 256) as u8,
            ((x as int / 65536) % 256) as u8,
            ((x as int / 16777216) % 256) as u8,
        ]);
    }
}

/// Encode PCM samples as a mono, 16-bit WAV container at the given
/// sample rate.
pub fn encode_wav(pcm: &Vec<i16>, rate: u32) -> (r: Result<Vec<u8>, EncodeError>)
    ensures
        r is Ok <==> (pcm@.len() <= MAX_WAV_SAMPLES && rate <= MAX_SAMPLE_RATE),
        r matches Ok(b) ==> b@ == wav_bytes(pcm@, rate),
        r matches Err(e) ==> (e is TooManySamples <==> pcm@.len() > MAX_WAV_SAMPLES),
{
    let n = pcm.len();
    if n > MAX_WAV_SAMPLES {
        return Err(EncodeError::TooManySamples);
    }
    if rate > MAX_SAMPLE_RATE {
        return Err(EncodeError::RateTooHigh);
    }
    let data_len: u32 = 2 * (n as u32);
    let riff_len: u32 = data_len + 36;
    let byte_rate: u32 = 2 * rate;

    let mut out: Vec<u8> = Vec::new();
    out.push(0x52);
    out.push(0x49);
    out.push(0x46);
    out.push(0x46);
    push_le32(&mut out, riff_len);
    out.push(0x57);
    out.push(0x41);
    out.push(0x56);
    out.push(0x45);
    out.push(0x66);
    out.push(0x6d);
    out.push(0x74);
    out.push(0x20);
    push_le32(&mut out, 16);
    out.push(1);
    out.push(0);
    out.push(1);
    out.push(0);
    push_le32(&mut out, rate);
    push_le32(&mut out, byte_rate);
    out.push(2);
    out.push(0);
    out.push(16);
    out.push(0);
    out.push(0x64);
    out.push(0x61);
    out.push(0x74);
    out.push(0x61);
    push_le32(&mut out, data_len);
    proof {
        reveal(wav_header);
        assert(out@ =~= wav_header(n as int, rate));
    }

    for i in 0..n
        invariant
            n == pcm@.len(),
            n <= MAX_WAV_SAMPLES,
            out@ == wav_header(n as int, rate) + pcm_bytes(pcm@.take(i as int)),
    {
        let x = pcm[i];
        let bits: u16 = if x >= 0 {
            x as u16
        } else {
            ((x as i32) + 65536) as u16
        };
        out.push((bits % 256) as u8);
        out.push((bits / 256) as u8);
        proof {
            assert(pcm@.take(i + 1int).drop_last() =~= pcm@.take(i as int));
            assert(pcm@.take(i + 1int).last() == pcm@[i as int]);
            assert(out@ =~= wav_header(n as int, rate) + pcm_bytes(pcm@.take(i + 1int)));
        }
    }
    proof {
        assert(pcm@.take(n as int) =~= pcm@);
    }
    Ok(out)
}

/// Encode captured scaled samples: quantize to PCM, then build the
/// container.
pub fn encode_container(samples: &Vec<i64>, rate: u32) -> (r: Result<Vec<u8>, EncodeError>)
    ensures
        r is Ok <==> (samples@.len() <= MAX_WAV_SAMPLES && rate <= MAX_SAMPLE_RATE),
        r matches Ok(b) ==> b@ == wav_bytes(quantized(samples@), rate),
        r matches Err(e) ==> (e is TooManySamples <==> samples@.len() > MAX_WAV_SAMPLES),
{
    let pcm = quantize(samples);
    encode_wav(&pcm, rate)
}

/// Parse a container's header: its sample rate and its sample count.
pub fn wav_info(bytes: &Vec<u8>) -> (r: Option<(u32, usize)>)
    ensures
        r is Some <==> wav_info_spec(bytes@) is Some,
        r matches Some((rate, count)) ==> wav_info_spec(bytes@) == Some((rate, count as int)),
{
    if bytes.len() < 44 {
        return None;
    }
    let tags_ok = bytes[0] == 0x52 && bytes[1] == 0x49 && bytes[2] == 0x46 && bytes[3] == 0x46
        && bytes[8] == 0x57 && bytes[9] == 0x41 && bytes[10] == 0x56 && bytes[11] == 0x45
        && bytes[12] == 0x66 && bytes[13] == 0x6d && bytes[14] == 0x74 && bytes[15] == 0x20
        && bytes[36] == 0x64 && bytes[37] == 0x61 && bytes[38] == 0x74 && bytes[39] == 0x61;
    if !tags_ok {
        return None;
    }
    let riff_len = read_le32(bytes, 4);
    let fmt_len = read_le32(bytes, 16);
    let format = read_le16(bytes, 20);
    let channels = read_le16(bytes, 22);
    let rate = read_le32(bytes, 24);
    let byte_rate = read_le32(bytes, 28);
    let block_align = read_le16(bytes, 32);
    let bits = read_le16(bytes, 34);
    let data_len = read_le32(bytes, 40);
    let total: u64 = bytes.len() as u64;
    if riff_len as u64 != total - 8 || fmt_len != 16 || format != 1 || channels != 1 || (byte_rate
        as u64) != 2 * (rate as u64) || block_align != 2 || bits != 16 || (data_len as u64) != total
        - 44 || data_len % 2 != 0 {
        return None;
    }
    Some((rate, (data_len / 2) as usize))
}

/// Read the little-endian 32-bit value at offset `i`.
fn read_le32(bytes: &Vec<u8>, i: usize) -> (r: u32)
    requires
        i + 4 <= bytes@.len() <= usize::MAX,
    ensures
        r == read_u32(bytes@, i as int),
{
    (bytes[i] as u32) + 256 * (bytes[i + 1] as u32) + 65536 * (bytes[i + 2] as u32) + 16777216 * (
    bytes[i + 3] as u32)
}

/// Read the little-endian 16-bit value at offset `i`.
fn read_le16(bytes: &Vec<u8>, i: usize) -> (r: u16)
    requires
        i + 2 <= bytes@.len() <= usize::MAX,
    ensures
        r == read_u16(bytes@, i as int),
{
    (bytes[i] as u16) + 256 * (bytes[i + 1] as u16)
}

/// The container's size: 44 header bytes, then two bytes per sample.
pub proof fn lemma_wav_len(s: Seq<i16>, rate: u32)
    ensures
        wav_bytes(s, rate).len() == 44 + 2 * s.len(),
{
    reveal(wav_header);
    lemma_pcm_len(s);
}

/// Law: encoding is deterministic. The container bytes are a function
/// of the sample sequence and the sample rate alone, so encoding the
/// same samples at the same rate twice yields byte-identical output.
pub proof fn lemma_encode_deterministic(s1: Seq<i64>, s2: Seq<i64>, rate1: u32, rate2: u32)
    requires
        s1 == s2,
        rate1 == rate2,
    ensures
        wav_bytes(quantized(s1), rate1) == wav_bytes(quantized(s2), rate2),
{
}

/// Law: round trip. Parsing the header of an encoded container
/// recovers exactly the sample rate and the sample count that were
/// encoded.
pub proof fn lemma_wav_round_trip(s: Seq<i16>, rate: u32)
    requires
        s.len() <= MAX_WAV_SAMPLES as int,
        rate <= MAX_SAMPLE_RATE,
    ensures
        wav_info_spec(wav_bytes(s, rate)) == Some((rate, s.len() as int)),
{
    reveal(wav_header);
    let n = s.len() as int;
    let h = wav_header(n, rate);
    let b = wav_bytes(s, rate);
    lemma_pcm_len(s);
    assert(h.len() == 44);
    assert(b.len() == 44 + 2 * n);
    assert forall|i: int| 0 <= i < 44 implies b[i] == h[i] by {}
    lemma_le32_read(36 + 2 * n);
    assert(read_u32(b, 4) == 36 + 2 * n);
    lemma_le32_read(16);
    assert(read_u32(b, 16) == 16);
    lemma_le16_read(1);
    assert(read_u16(b, 20) == 1);
    assert(read_u16(b, 22) == 1);
    lemma_le32_read(rate as int);
    assert(read_u32(b, 24) == rate as int);
    lemma_le32_read(2 * (rate as int));
    assert(read_u32(b, 28) == 2 * (rate as int));
    lemma_le16_read(2);
    assert(read_u16(b, 32) == 2);
    lemma_le16_read(16);
    assert(read_u16(b, 34) == 16);
    lemma_le32_read(2 * n);
    assert(read_u32(b, 40) == 2 * n);
    assert((b.len() - 44) % 2 == 0) by {
        vstd::arithmetic::div_mod::lemma_fundamental_div_mod_converse_mod(2 * n, 2, n, 0);
    }
}

} // verus!
