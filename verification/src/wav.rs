//! The artifact container: mono 16-bit signed PCM in a RIFF WAV file,
//! little-endian, with standard `fmt ` and `data` chunks.
//!
//! The encoder clamps each fixed-point sample to one full-scale unit before
//! quantization, guarding against upstream clipping and resampler
//! overshoot, and lays out the complete byte image of the file; writing
//! those bytes to disk is the application's job. The decoder accepts
//! exactly the artifacts this encoder can produce and recovers the
//! quantized samples bit for bit.

use vstd::prelude::*;

use crate::session::samples_bounded;
use crate::SAMPLE_UNIT;

verus! {

/// Byte length of the fixed RIFF/fmt/data header the encoder writes.
pub const WAV_HEADER_LEN: usize = 44;

/// Most samples one artifact can hold: the RIFF size field is 32 bits wide.
pub const MAX_WAV_SAMPLES: usize = 0x7fffffe5;

/// A sample clamped to one full-scale unit: the integer the artifact stores.
pub open spec fn spec_quantize(v: int) -> int {
    if v < -SAMPLE_UNIT {
        -SAMPLE_UNIT as int
    } else if v > SAMPLE_UNIT {
        SAMPLE_UNIT as int
    } else {
        v
    }
}

/// The whole buffer, clamped samplewise.
pub open spec fn spec_quantize_all(s: Seq<i64>) -> Seq<int> {
    s.map_values(|v: i64| spec_quantize(v as int))
}

/// Byte `k` of the little-endian image of `x`.
pub open spec fn le_byte(x: int, k: int) -> u8 {
    if k == 0 {
        (x % 256) as u8
    } else if k == 1 {
        ((x / 256) % 256) as u8
    } else if k == 2 {
        ((x / 65536) % 256) as u8
    } else {
        ((x / 16777216) % 256) as u8
    }
}

/// Little-endian image of a 16-bit unsigned value.
pub open spec fn u16_le(x: int) -> Seq<u8> {
    seq![le_byte(x, 0), le_byte(x, 1)]
}

/// Little-endian image of a 32-bit unsigned value.
pub open spec fn u32_le(x: int) -> Seq<u8> {
    seq![le_byte(x, 0), le_byte(x, 1), le_byte(x, 2), le_byte(x, 3)]
}

/// Little-endian image of a 16-bit signed value, two's complement.
pub open spec fn i16_le(v: int) -> Seq<u8> {
    u16_le(
        if v < 0 {
            v + 65536
        } else {
            v
        },
    )
}

/// The sample area: each value as two little-endian bytes in order.
pub open spec fn pcm_bytes(pcm: Seq<int>) -> Seq<u8>
    decreases pcm.len(),
{
    if pcm.len() == 0 {
        Seq::<u8>::empty()
    } else {
        pcm_bytes(pcm.drop_last()) + i16_le(pcm.last())
    }
}

/// Byte `i` of the 44-byte header for `n` mono 16-bit samples at `rate`
/// hertz: the RIFF tag and size, the `WAVE` form, a 16-byte PCM `fmt `
/// chunk, and the `data` chunk tag and size.
pub open spec fn wav_header_byte(n: int, rate: int, i: int) -> u8 {
    if i == 0 {
        0x52u8
    } else if i == 1 {
        0x49u8
    } else if i == 2 {
        0x46u8
    } else if i == 3 {
        0x46u8
    } else if i < 8 {
        le_byte(36 + 2 * n, i - 4)
    } else if i == 8 {
        0x57u8
    } else if i == 9 {
        0x41u8
    } else if i == 10 {
        0x56u8
    } else if i == 11 {
        0x45u8
    } else if i == 12 {
        0x66u8
    } else if i == 13 {
        0x6du8
    } else if i == 14 {
        0x74u8
    } else if i == 15 {
        0x20u8
    } else if i < 20 {
        le_byte(16, i - 16)
    } else if i < 22 {
        le_byte(1, i - 20)
    } else if i < 24 {
        le_byte(1, i - 22)
    } else if i < 28 {
        le_byte(rate, i - 24)
    } else if i < 32 {
        le_byte(2 * rate, i - 28)
    } else if i < 34 {
        le_byte(2, i - 32)
    } else if i < 36 {
        le_byte(16, i - 34)
    } else if i == 36 {
        0x64u8
    } else if i == 37 {
        0x61u8
    } else if i == 38 {
        0x74u8
    } else if i == 39 {
        0x61u8
    } else {
        le_byte(2 * n, i - 40)
    }
}

/// The 44-byte header for `n` mono 16-bit samples at `rate` hertz.
pub open spec fn spec_wav_header(n: int, rate: int) -> Seq<u8> {
    Seq::new(WAV_HEADER_LEN as nat, |i: int| wav_header_byte(n, rate, i))
}

/// The byte image of a whole artifact holding `pcm` at `rate` hertz.
pub open spec fn spec_encode_wav(pcm: Seq<int>, rate: int) -> Seq<u8> {
    spec_wav_header(pcm.len() as int, rate) + pcm_bytes(pcm)
}

/// A 16-bit little-endian read.
pub open spec fn read_u16_at(b: Seq<u8>, off: int) -> int {
    b[off] + 256 * b[off + 1]
}

/// A 32-bit little-endian read.
pub open spec fn read_u32_at(b: Seq<u8>, off: int) -> int {
    b[off] + 256 * b[off + 1] + 65536 * b[off + 2] + 16777216 * b[off + 3]
}

/// A 16-bit little-endian read as a signed value.
pub open spec fn read_i16_at(b: Seq<u8>, off: int) -> int {
    if read_u16_at(b, off) >= 32768 {
        read_u16_at(b, off) - 65536
    } else {
        read_u16_at(b, off)
    }
}

/// Whether `b` is an artifact this pipeline produces: a RIFF WAV whose one
/// `fmt ` chunk declares mono 16-bit PCM and whose chunk sizes agree with
/// the file length.
pub open spec fn wav_well_formed(b: Seq<u8>) -> bool {
    &&& b.len() >= WAV_HEADER_LEN
    &&& (b.len() - WAV_HEADER_LEN) % 2 == 0
    &&& b[0] == 0x52 && b[1] == 0x49 && b[2] == 0x46 && b[3] == 0x46
    &&& read_u32_at(b, 4) == b.len() - 8
    &&& b[8] == 0x57 && b[9] == 0x41 && b[10] == 0x56 && b[11] == 0x45
    &&& b[12] == 0x66 && b[13] == 0x6d && b[14] == 0x74 && b[15] == 0x20
    &&& read_u32_at(b, 16) == 16
    &&& read_u16_at(b, 20) == 1
    &&& read_u16_at(b, 22) == 1
    &&& read_u32_at(b, 28) == 2 * read_u32_at(b, 24)
    &&& read_u16_at(b, 32) == 2
    &&& read_u16_at(b, 34) == 16
    &&& b[36] == 0x64 && b[37] == 0x61 && b[38] == 0x74 && b[39] == 0x61
    &&& read_u32_at(b, 40) == b.len() - WAV_HEADER_LEN
}

/// The declared sample rate of a well-formed artifact.
pub open spec fn wav_rate(b: Seq<u8>) -> int {
    read_u32_at(b, 24)
}

/// The samples a well-formed artifact stores, in order.
pub open spec fn wav_samples(b: Seq<u8>) -> Seq<int> {
    Seq::new(((b.len() - WAV_HEADER_LEN) / 2) as nat, |i: int| read_i16_at(b, 44 + 2 * i))
}

/// Appends the two little-endian bytes of `x`.
fn push_u16_le(out: &mut Vec<u8>, x: u16)
    ensures
        final(out)@ == old(out)@ + u16_le(x as int),
{
    out.push((x % 256) as u8);
    out.push(((x / 256) % 256) as u8);
    proof {
        assert(out@ =~= old(out)@ + u16_le(x as int));
    }
}

/// Appends the four little-endian bytes of `x`.
fn push_u32_le(out: &mut Vec<u8>, x: u32)
    ensures
        final(out)@ == old(out)@ + u32_le(x as int),
{
    out.push((x % 256) as u8);
    out.push(((x / 256) % 256) as u8);
    out.push(((x / 65536) % 256) as u8);
    out.push(((x / 16777216) % 256) as u8);
    proof {
        assert(out@ =~= old(out)@ + u32_le(x as int));
    }
}

/// Clamps one fixed-point sample to one full-scale unit.
pub fn quantize(v: i64) -> (q: i64)
    ensures
        q == spec_quantize(v as int),
        -SAMPLE_UNIT <= q <= SAMPLE_UNIT,
{
    if v < -SAMPLE_UNIT {
        -SAMPLE_UNIT
    } else if v > SAMPLE_UNIT {
        SAMPLE_UNIT
    } else {
        v
    }
}

/// Builds the complete byte image of a mono 16-bit PCM artifact holding the
/// clamped samples at `rate` hertz.
pub fn encode_wav(samples: &Vec<i64>, rate: u32) -> (out: Vec<u8>)
    requires
        samples@.len() <= MAX_WAV_SAMPLES,
        rate < 0x80000000,
    ensures
        out@ == spec_encode_wav(spec_quantize_all(samples@), rate as int),
        out@.len() == WAV_HEADER_LEN + 2 * samples@.len(),
{
    let ghost pcm = spec_quantize_all(samples@);
    proof {
        assert(pcm.len() == samples@.len());
    }
    let n: usize = samples.len();
    let data_len: u32 = ((n as u64) * 2) as u32;
    let riff_len: u32 = 36 + data_len;
    let mut out: Vec<u8> = Vec::new();
    out.push(0x52);
    out.push(0x49);
    out.push(0x46);
    out.push(0x46);
    push_u32_le(&mut out, riff_len);
    out.push(0x57);
    out.push(0x41);
    out.push(0x56);
    out.push(0x45);
    out.push(0x66);
    out.push(0x6d);
    out.push(0x74);
    out.push(0x20);
    push_u32_le(&mut out, 16);
    push_u16_le(&mut out, 1);
    push_u16_le(&mut out, 1);
    push_u32_le(&mut out, rate);
    push_u32_le(&mut out, rate * 2);
    push_u16_le(&mut out, 2);
    push_u16_le(&mut out, 16);
    out.push(0x64);
    out.push(0x61);
    out.push(0x74);
    out.push(0x61);
    push_u32_le(&mut out, data_len);
    proof {
        assert(out@ =~= spec_wav_header(n as int, rate as int));
    }
    let mut i: usize = 0;
    while i < n
        invariant
            i <= n,
            n == samples@.len(),
            samples@.len() <= MAX_WAV_SAMPLES,
            pcm == spec_quantize_all(samples@),
            out@ == spec_wav_header(n as int, rate as int) + pcm_bytes(pcm.subrange(0, i as int)),
        decreases n - i,
    {
        let q: i64 = quantize(samples[i]);
        let u: u16 = if q < 0 {
            (q + 65536) as u16
        } else {
            q as u16
        };
        push_u16_le(&mut out, u);
        i = i + 1;
        proof {
            let sub = pcm.subrange(0, i as int);
            assert(sub.drop_last() =~= pcm.subrange(0, i as int - 1));
            assert(sub.last() == spec_quantize(samples@[i as int - 1] as int));
            assert(u16_le(u as int) =~= i16_le(sub.last()));
            assert(out@ =~= spec_wav_header(n as int, rate as int) + pcm_bytes(sub));
        }
    }
    proof {
        assert(pcm.subrange(0, n as int) =~= pcm);
        lemma_pcm_bytes_len(pcm);
    }
    out
}

/// The sample area is two bytes per sample.
pub proof fn lemma_pcm_bytes_len(pcm: Seq<int>)
    ensures
        pcm_bytes(pcm).len() == 2 * pcm.len(),
    decreases pcm.len(),
{
    if pcm.len() > 0 {
        lemma_pcm_bytes_len(pcm.drop_last());
    }
}

/// A decoded artifact: its declared rate and its samples, widened back to
/// fixed point.
pub struct DecodedWav {
    /// The declared sample rate, in hertz.
    pub sample_rate: u32,
    /// The stored samples; each is within one full-scale unit of zero, give
    /// or take the one extra negative 16-bit value.
    pub samples: Vec<i64>,
}

/// Reads two little-endian bytes at `off`.
fn read_u16(b: &Vec<u8>, off: usize) -> (x: u16)
    requires
        off + 2 <= b@.len(),
    ensures
        x as int == read_u16_at(b@, off as int),
{
    proof {
        vstd::std_specs::vec::axiom_spec_len(b);
    }
    b[off] as u16 + 256 * (b[off + 1] as u16)
}

/// Reads four little-endian bytes at `off`.
fn read_u32(b: &Vec<u8>, off: usize) -> (x: u32)
    requires
        off + 4 <= b@.len(),
    ensures
        x as int == read_u32_at(b@, off as int),
{
    proof {
        vstd::std_specs::vec::axiom_spec_len(b);
    }
    b[off] as u32 + 256 * (b[off + 1] as u32) + 65536 * (b[off + 2] as u32) + 16777216 * (b[off
        + 3] as u32)
}

/// Parses the byte image of an artifact. Returns the declared rate and the
/// stored samples exactly when the bytes are a mono 16-bit PCM WAV whose
/// sizes agree with the file length, and nothing otherwise.
pub fn decode_wav(bytes: &Vec<u8>) -> (r: Option<DecodedWav>)
    ensures
        r is Some <==> wav_well_formed(bytes@),
        r matches Some(d) ==> {
            &&& d.sample_rate as int == wav_rate(bytes@)
            &&& d.samples@.map_values(|v: i64| v as int) == wav_samples(bytes@)
            &&& samples_bounded(d.samples@)
        },
{
    let len: usize = bytes.len();
    if len < WAV_HEADER_LEN {
        return None;
    }
    if (len - WAV_HEADER_LEN) % 2 != 0 {
        return None;
    }
    if bytes[0] != 0x52 || bytes[1] != 0x49 || bytes[2] != 0x46 || bytes[3] != 0x46 {
        return None;
    }
    if bytes[8] != 0x57 || bytes[9] != 0x41 || bytes[10] != 0x56 || bytes[11] != 0x45 {
        return None;
    }
    if bytes[12] != 0x66 || bytes[13] != 0x6d || bytes[14] != 0x74 || bytes[15] != 0x20 {
        return None;
    }
    let riff_size: u32 = read_u32(bytes, 4);
    if (len - 8) as u64 != riff_size as u64 {
        return None;
    }
    if read_u32(bytes, 16) != 16 {
        return None;
    }
    if read_u16(bytes, 20) != 1 {
        return None;
    }
    if read_u16(bytes, 22) != 1 {
        return None;
    }
    let rate: u32 = read_u32(bytes, 24);
    let byte_rate: u32 = read_u32(bytes, 28);
    if byte_rate as u64 != 2 * (rate as u64) {
        return None;
    }
    if read_u16(bytes, 32) != 2 {
        return None;
    }
    if read_u16(bytes, 34) != 16 {
        return None;
    }
    if bytes[36] != 0x64 || bytes[37] != 0x61 || bytes[38] != 0x74 || bytes[39] != 0x61 {
        return None;
    }
    let data_size: u32 = read_u32(bytes, 40);
    if (len - WAV_HEADER_LEN) as u64 != data_size as u64 {
        return None;
    }
    let count: usize = (len - WAV_HEADER_LEN) / 2;
    let mut samples: Vec<i64> = Vec::new();
    let mut i: usize = 0;
    while i < count
        invariant
            i <= count,
            count == (bytes@.len() - WAV_HEADER_LEN as int) / 2,
            bytes@.len() >= WAV_HEADER_LEN,
            (bytes@.len() - WAV_HEADER_LEN as int) % 2 == 0,
            len == bytes@.len(),
            samples@.len() == i,
            forall|j: int|
                0 <= j < i ==> samples@[j] as int == read_i16_at(bytes@, 44 + 2 * j),
            samples_bounded(samples@),
        decreases count - i,
    {
        proof {
            assert(44 + 2 * (i as int) + 2 <= bytes@.len()) by {
                vstd::arithmetic::div_mod::lemma_fundamental_div_mod(
                    bytes@.len() - WAV_HEADER_LEN as int,
                    2,
                );
            }
        }
        let u: u16 = read_u16(bytes, WAV_HEADER_LEN + 2 * i);
        let v: i64 = if u >= 32768 {
            u as i64 - 65536
        } else {
            u as i64
        };
        samples.push(v);
        i = i + 1;
    }
    proof {
        assert(samples@.map_values(|v: i64| v as int) =~= wav_samples(bytes@));
    }
    Some(DecodedWav { sample_rate: rate, samples })
}


/// Indexing into the sample area: sample `i` owns bytes `2i` and `2i + 1`.
proof fn lemma_pcm_bytes_index(pcm: Seq<int>, i: int)
    requires
        0 <= i < pcm.len(),
    ensures
        pcm_bytes(pcm)[2 * i] == i16_le(pcm[i])[0],
        pcm_bytes(pcm)[2 * i + 1] == i16_le(pcm[i])[1],
    decreases pcm.len(),
{
    lemma_pcm_bytes_len(pcm.drop_last());
    if i == pcm.len() - 1 {
        assert(pcm.last() == pcm[i]);
    } else {
        lemma_pcm_bytes_index(pcm.drop_last(), i);
        assert(pcm.drop_last()[i] == pcm[i]);
    }
}

/// Recombining the two little-endian bytes of a 16-bit value is the
/// identity.
proof fn lemma_u16_recombine(x: int)
    requires
        0 <= x < 65536,
    ensures
        (x % 256) + 256 * ((x / 256) % 256) == x,
{
    vstd::arithmetic::div_mod::lemma_fundamental_div_mod(x, 256);
    assert(x / 256 < 256) by {
        vstd::arithmetic::div_mod::lemma_div_is_ordered(x, 65535, 256);
    }
    assert((x / 256) % 256 == x / 256) by {
        vstd::arithmetic::div_mod::lemma_small_mod((x / 256) as nat, 256);
        vstd::arithmetic::div_mod::lemma_div_pos_is_pos(x, 256);
    }
}

/// Recombining the four little-endian bytes of a 32-bit value is the
/// identity.
proof fn lemma_u32_recombine(x: int)
    requires
        0 <= x < 0x100000000,
    ensures
        (x % 256) + 256 * ((x / 256) % 256) + 65536 * ((x / 65536) % 256) + 16777216 * ((x
            / 16777216) % 256) == x,
{
    vstd::arithmetic::div_mod::lemma_fundamental_div_mod(x, 256);
    vstd::arithmetic::div_mod::lemma_fundamental_div_mod(x / 256, 256);
    vstd::arithmetic::div_mod::lemma_fundamental_div_mod(x / 65536, 256);
    vstd::arithmetic::div_mod::lemma_div_pos_is_pos(x, 256);
    vstd::arithmetic::div_mod::lemma_div_pos_is_pos(x / 256, 256);
    vstd::arithmetic::div_mod::lemma_div_pos_is_pos(x / 65536, 256);
    assert((x / 256) / 256 == x / 65536) by {
        vstd::arithmetic::div_mod::lemma_div_denominator(x, 256, 256);
    }
    assert((x / 65536) / 256 == x / 16777216) by {
        vstd::arithmetic::div_mod::lemma_div_denominator(x, 65536, 256);
    }
    assert(x / 16777216 < 256) by {
        vstd::arithmetic::div_mod::lemma_div_is_ordered(x, 0xffffffff, 16777216);
    }
    assert((x / 16777216) % 256 == x / 16777216) by {
        vstd::arithmetic::div_mod::lemma_small_mod((x / 16777216) as nat, 256);
        vstd::arithmetic::div_mod::lemma_div_pos_is_pos(x, 16777216);
    }
}

/// The fixed-offset fields of an encoded image read back as written.
#[verifier::rlimit(100)]
proof fn lemma_header_fields(pcm: Seq<int>, rate: int)
    requires
        0 <= rate < 0x80000000,
        pcm.len() <= MAX_WAV_SAMPLES,
    ensures
        wav_well_formed(spec_encode_wav(pcm, rate)),
        wav_rate(spec_encode_wav(pcm, rate)) == rate,
{
    let b = spec_encode_wav(pcm, rate);
    let n = pcm.len() as int;
    let hdr = spec_wav_header(n, rate);
    lemma_pcm_bytes_len(pcm);
    assert(hdr.len() == 44);
    assert(b.len() == 44 + 2 * n);
    lemma_u32_recombine(36 + 2 * n);
    lemma_u32_recombine(16);
    lemma_u16_recombine(1);
    lemma_u32_recombine(rate);
    lemma_u32_recombine(2 * rate);
    lemma_u16_recombine(2);
    lemma_u16_recombine(16);
    lemma_u32_recombine(2 * n);
    assert(read_u32_at(b, 4) == 36 + 2 * n);
    assert(read_u32_at(b, 16) == 16);
    assert(read_u16_at(b, 20) == 1);
    assert(read_u16_at(b, 22) == 1);
    assert(read_u32_at(b, 24) == rate);
    assert(read_u32_at(b, 28) == 2 * rate);
    assert(read_u16_at(b, 32) == 2);
    assert(read_u16_at(b, 34) == 16);
    assert(read_u32_at(b, 40) == 2 * n);
}

/// Round trip: the byte image the encoder lays out for clamped samples is a
/// well-formed artifact that declares the encoder's rate and stores exactly
/// those samples. Together with the decoder's contract, decoding an encoded
/// buffer yields the quantized originals bit for bit.
#[verifier::rlimit(100)]
pub proof fn lemma_wav_round_trip(pcm: Seq<int>, rate: int)
    requires
        forall|i: int| 0 <= i < pcm.len() ==> -SAMPLE_UNIT <= #[trigger] pcm[i] <= SAMPLE_UNIT,
        0 <= rate < 0x80000000,
        pcm.len() <= MAX_WAV_SAMPLES,
    ensures
        wav_well_formed(spec_encode_wav(pcm, rate)),
        wav_rate(spec_encode_wav(pcm, rate)) == rate,
        wav_samples(spec_encode_wav(pcm, rate)) =~= pcm,
{
    let b = spec_encode_wav(pcm, rate);
    let n = pcm.len() as int;
    let hdr = spec_wav_header(n, rate);
    lemma_pcm_bytes_len(pcm);
    assert(hdr.len() == 44);
    assert(b.len() == 44 + 2 * n);
    lemma_header_fields(pcm, rate);
    let data = b.subrange(44, 44 + 2 * n);
    assert(data =~= pcm_bytes(pcm));
    assert(wav_samples(b).len() == n);
    assert forall|i: int| 0 <= i < n implies wav_samples(b)[i] == pcm[i] by {
        lemma_pcm_bytes_index(pcm, i);
        assert(b[44 + 2 * i] == data[2 * i]);
        assert(b[44 + 2 * i + 1] == data[2 * i + 1]);
        let v = pcm[i];
        let u = if v < 0 {
            v + 65536
        } else {
            v
        };
        lemma_u16_recombine(u);
        assert(read_u16_at(b, 44 + 2 * i) == u);
        assert(read_i16_at(b, 44 + 2 * i) == v);
    }
}

} // verus!

