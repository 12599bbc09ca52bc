use vstd::prelude::*;
use crate::errors::PlayError;

verus! {

/// Byte length of the container header this library writes and reads.
pub const HEADER_LEN: usize = 44;

/// A 16-bit value as its two little-endian bytes.
pub open spec fn u16_le(v: int) -> Seq<u8> {
    seq![(v % 256) as u8, ((v / 256) % 256) as u8]
}

/// A 32-bit value as its four little-endian bytes.
pub open spec fn u32_le(v: int) -> Seq<u8> {
    seq![
        (v % 256) as u8,
        ((v / 256) % 256) as u8,
        ((v / 65536) % 256) as u8,
        ((v / 16777216) % 256) as u8,
    ]
}

/// The unsigned 16-bit cell that stores a signed sample, two's complement.
pub open spec fn sample_cell(v: i16) -> int {
    if v >= 0 {
        v as int
    } else {
        v as int + 65536
    }
}

/// The signed sample a 16-bit cell stores, two's complement.
pub open spec fn cell_sample(u: int) -> i16 {
    if u < 32768 {
        u as i16
    } else {
        (u - 65536) as i16
    }
}

/// The 16-bit value at position `i` of `b`, read little-endian.
pub open spec fn le16_at(b: Seq<u8>, i: int) -> int {
    b[i] + 256 * b[i + 1]
}

/// The 32-bit value at position `i` of `b`, read little-endian.
pub open spec fn le32_at(b: Seq<u8>, i: int) -> int {
    b[i] + 256 * b[i + 1] + 65536 * b[i + 2] + 16777216 * b[i + 3]
}

/// The sample region of the container: each sample as two little-endian
/// bytes of its two's-complement cell.
pub open spec fn data_bytes(s: Seq<i16>) -> Seq<u8> {
    Seq::new(2 * s.len(), |i: int| u16_le(sample_cell(s[i / 2]))[i % 2])
}

/// The 44-byte container header for a mono, 16-bit, integer pulse-code
/// recording of `sample_count` samples at `sample_rate` Hz.
pub open spec fn header_bytes(sample_count: int, sample_rate: int) -> Seq<u8> {
    seq![0x52u8, 0x49u8, 0x46u8, 0x46u8] + u32_le(36 + 2 * sample_count)
        + seq![0x57u8, 0x41u8, 0x56u8, 0x45u8] + seq![0x66u8, 0x6du8, 0x74u8, 0x20u8]
        + u32_le(16) + u16_le(1) + u16_le(1) + u32_le(sample_rate) + u32_le(2 * sample_rate)
        + u16_le(2) + u16_le(16) + seq![0x64u8, 0x61u8, 0x74u8, 0x61u8]
        + u32_le(2 * sample_count)
}

/// The whole encoded file: header, then the sample region.
pub open spec fn wav_bytes(s: Seq<i16>, sample_rate: int) -> Seq<u8> {
    header_bytes(s.len() as int, sample_rate) + data_bytes(s)
}

/// Whether `b` opens with a well-formed header for a mono, 16-bit,
/// integer pulse-code recording whose sizes agree with `b`'s length.
pub open spec fn header_ok(b: Seq<u8>) -> bool {
    &&& b.len() >= 44
    &&& (b.len() - 44) % 2 == 0
    &&& b[0] == 0x52u8 && b[1] == 0x49u8 && b[2] == 0x46u8 && b[3] == 0x46u8
    &&& le32_at(b, 4) == b.len() - 8
    &&& b[8] == 0x57u8 && b[9] == 0x41u8 && b[10] == 0x56u8 && b[11] == 0x45u8
    &&& b[12] == 0x66u8 && b[13] == 0x6du8 && b[14] == 0x74u8 && b[15] == 0x20u8
    &&& le32_at(b, 16) == 16
    &&& le16_at(b, 20) == 1
    &&& le16_at(b, 22) == 1
    &&& le32_at(b, 24) >= 1
    &&& le32_at(b, 28) == 2 * le32_at(b, 24)
    &&& le16_at(b, 32) == 2
    &&& le16_at(b, 34) == 16
    &&& b[36] == 0x64u8 && b[37] == 0x61u8 && b[38] == 0x74u8 && b[39] == 0x61u8
    &&& le32_at(b, 40) == b.len() - 44
}

/// The sample region read back: one signed sample per two bytes.
pub open spec fn parse_samples(d: Seq<u8>) -> Seq<i16> {
    Seq::new((d.len() as int / 2) as nat, |i: int| cell_sample(le16_at(d, 2 * i)))
}

/// What a byte string decodes to: the samples and the sample rate if the
/// header is well formed and the sizes agree, nothing otherwise.
pub open spec fn parse_wav(b: Seq<u8>) -> Option<(Seq<i16>, int)> {
    if header_ok(b) {
        Some((parse_samples(b.skip(44)), le32_at(b, 24)))
    } else {
        None
    }
}

proof fn lemma_u16_reconstruct(v: int)
    requires
        0 <= v < 65536,
    ensures
        (v % 256) + 256 * ((v / 256) % 256) == v,
{
    vstd::arithmetic::div_mod::lemma_fundamental_div_mod(v, 256);
    vstd::arithmetic::div_mod::lemma_small_mod((v / 256) as nat, 256);
}

proof fn lemma_u32_reconstruct(v: int)
    requires
        0 <= v < 0x1_0000_0000,
    ensures
        (v % 256) + 256 * ((v / 256) % 256) + 65536 * ((v / 65536) % 256) + 16777216 * ((v
            / 16777216) % 256) == v,
{
    vstd::arithmetic::div_mod::lemma_fundamental_div_mod(v, 256);
    vstd::arithmetic::div_mod::lemma_fundamental_div_mod(v / 256, 256);
    vstd::arithmetic::div_mod::lemma_fundamental_div_mod(v / 65536, 256);
    vstd::arithmetic::div_mod::lemma_div_denominator(v, 256, 256);
    vstd::arithmetic::div_mod::lemma_div_denominator(v, 65536, 256);
    vstd::arithmetic::div_mod::lemma_small_mod((v / 16777216) as nat, 256);
}

proof fn lemma_cell_round(v: i16)
    ensures
        0 <= sample_cell(v) < 65536,
        cell_sample(sample_cell(v)) == v,
{
}

proof fn lemma_parse_data_round(s: Seq<i16>)
    ensures
        parse_samples(data_bytes(s)) == s,
{
    let d = data_bytes(s);
    assert forall|i: int| 0 <= i < s.len() implies parse_samples(d)[i] == s[i] by {
        let c = sample_cell(s[i]);
        lemma_cell_round(s[i]);
        assert((2 * i) % 2 == 0 && (2 * i) / 2 == i);
        assert((2 * i + 1) % 2 == 1 && (2 * i + 1) / 2 == i);
        assert(d[2 * i] == (c % 256) as u8);
        assert(d[2 * i + 1] == ((c / 256) % 256) as u8);
        lemma_u16_reconstruct(c);
        assert(le16_at(d, 2 * i) == c);
    }
    assert(parse_samples(d) =~= s);
}

proof fn lemma_header_fields(n: int, sample_rate: int)
    requires
        0 <= n <= 2147483629,
        1 <= sample_rate <= 0x7fff_ffff,
    ensures
        header_bytes(n, sample_rate).len() == 44,
        le32_at(header_bytes(n, sample_rate), 4) == 36 + 2 * n,
        le32_at(header_bytes(n, sample_rate), 16) == 16,
        le16_at(header_bytes(n, sample_rate), 20) == 1,
        le16_at(header_bytes(n, sample_rate), 22) == 1,
        le32_at(header_bytes(n, sample_rate), 24) == sample_rate,
        le32_at(header_bytes(n, sample_rate), 28) == 2 * sample_rate,
        le16_at(header_bytes(n, sample_rate), 32) == 2,
        le16_at(header_bytes(n, sample_rate), 34) == 16,
        le32_at(header_bytes(n, sample_rate), 40) == 2 * n,
        header_bytes(n, sample_rate)[0] == 0x52u8,
        header_bytes(n, sample_rate)[1] == 0x49u8,
        header_bytes(n, sample_rate)[2] == 0x46u8,
        header_bytes(n, sample_rate)[3] == 0x46u8,
        header_bytes(n, sample_rate)[8] == 0x57u8,
        header_bytes(n, sample_rate)[9] == 0x41u8,
        header_bytes(n, sample_rate)[10] == 0x56u8,
        header_bytes(n, sample_rate)[11] == 0x45u8,
        header_bytes(n, sample_rate)[12] == 0x66u8,
        header_bytes(n, sample_rate)[13] == 0x6du8,
        header_bytes(n, sample_rate)[14] == 0x74u8,
        header_bytes(n, sample_rate)[15] == 0x20u8,
        header_bytes(n, sample_rate)[36] == 0x64u8,
        header_bytes(n, sample_rate)[37] == 0x61u8,
        header_bytes(n, sample_rate)[38] == 0x74u8,
        header_bytes(n, sample_rate)[39] == 0x61u8,
{
    lemma_u32_reconstruct(36 + 2 * n);
    lemma_u32_reconstruct(16);
    lemma_u16_reconstruct(1);
    lemma_u32_reconstruct(sample_rate);
    lemma_u32_reconstruct(2 * sample_rate);
    lemma_u16_reconstruct(2);
    lemma_u16_reconstruct(16);
    lemma_u32_reconstruct(2 * n);
}

/// Round trip: a file image this library encodes decodes back to exactly
/// the samples and the sample rate it was given — the sample count and
/// every sample value are preserved.
#[verifier::rlimit(100)]
pub proof fn lemma_wav_round_trip(s: Seq<i16>, sample_rate: int)
    requires
        1 <= sample_rate <= 0x7fff_ffff,
        s.len() <= 2147483629,
    ensures
        parse_wav(wav_bytes(s, sample_rate)) == Some((s, sample_rate)),
{
    let n = s.len() as int;
    let h = header_bytes(n, sample_rate);
    let b = wav_bytes(s, sample_rate);
    lemma_header_fields(n, sample_rate);
    assert(b.len() == 44 + 2 * n);
    assert forall|k: int| 0 <= k < 44 implies b[k] == h[k] by {}
    assert(le32_at(b, 4) == le32_at(h, 4));
    assert(le32_at(b, 16) == le32_at(h, 16));
    assert(le16_at(b, 20) == le16_at(h, 20));
    assert(le16_at(b, 22) == le16_at(h, 22));
    assert(le32_at(b, 24) == le32_at(h, 24));
    assert(le32_at(b, 28) == le32_at(h, 28));
    assert(le16_at(b, 32) == le16_at(h, 32));
    assert(le16_at(b, 34) == le16_at(h, 34));
    assert(le32_at(b, 40) == le32_at(h, 40));
    assert(header_ok(b));
    assert(b.skip(44) =~= data_bytes(s));
    lemma_parse_data_round(s);
}

fn push_tag(out: &mut Vec<u8>, b0: u8, b1: u8, b2: u8, b3: u8)
    ensures
        final(out)@ == old(out)@ + seq![b0, b1, b2, b3],
{
    out.push(b0);
    out.push(b1);
    out.push(b2);
    out.push(b3);
    proof {
        assert(out@ =~= old(out)@ + seq![b0, b1, b2, b3]);
    }
}

fn push_u16_le(out: &mut Vec<u8>, v: u16)
    ensures
        final(out)@ == old(out)@ + u16_le(v as int),
{
    out.push((v % 256) as u8);
    out.push((v / 256) as u8);
    proof {
        assert(((v as int / 256) % 256) == v as int / 256);
        assert(out@ =~= old(out)@ + u16_le(v as int));
    }
}

fn push_u32_le(out: &mut Vec<u8>, v: u32)
    ensures
        final(out)@ == old(out)@ + u32_le(v as int),
{
    out.push((v % 256) as u8);
    out.push(((v / 256) % 256) as u8);
    out.push(((v / 65536) % 256) as u8);
    out.push((v / 16777216) as u8);
    proof {
        assert(((v as int / 16777216) % 256) == v as int / 16777216);
        assert(out@ =~= old(out)@ + u32_le(v as int));
    }
}

/// Serialize mono samples as a standard mono, 16-bit, integer pulse-code
/// file image: the 44-byte header, then each sample little-endian.  The
/// caller owns writing the image to storage.
pub fn encode_wav(samples: &Vec<i16>, sample_rate: u32) -> (out: Vec<u8>)
    requires
        1 <= sample_rate <= 0x7fff_ffff,
        samples@.len() <= 2147483629,
    ensures
        out@ == wav_bytes(samples@, sample_rate as int),
{
    let n: usize = samples.len();
    let data_size: u32 = (n as u32) * 2;
    let riff_size: u32 = 36 + data_size;
    let byte_rate: u32 = sample_rate * 2;
    let mut out: Vec<u8> = Vec::new();
    push_tag(&mut out, 0x52, 0x49, 0x46, 0x46);
    push_u32_le(&mut out, riff_size);
    push_tag(&mut out, 0x57, 0x41, 0x56, 0x45);
    push_tag(&mut out, 0x66, 0x6d, 0x74, 0x20);
    push_u32_le(&mut out, 16);
    push_u16_le(&mut out, 1);
    push_u16_le(&mut out, 1);
    push_u32_le(&mut out, sample_rate);
    push_u32_le(&mut out, byte_rate);
    push_u16_le(&mut out, 2);
    push_u16_le(&mut out, 16);
    push_tag(&mut out, 0x64, 0x61, 0x74, 0x61);
    push_u32_le(&mut out, data_size);
    proof {
        assert(out@ =~= header_bytes(n as int, sample_rate as int));
    }
    let mut i: usize = 0;
    while i < n
        invariant
            n == samples@.len(),
            n <= 2147483629,
            1 <= sample_rate <= 0x7fff_ffff,
            0 <= i <= n,
            out@ == header_bytes(n as int, sample_rate as int)
                + data_bytes(samples@.take(i as int)),
        decreases n - i,
    {
        let v: i16 = samples[i];
        let cell: u16 = if v >= 0 {
            v as u16
        } else {
            ((v as i32) + 65536) as u16
        };
        proof {
            assert(cell as int == sample_cell(v));
        }
        push_u16_le(&mut out, cell);
        proof {
            assert(data_bytes(samples@.take(i as int + 1)) =~= data_bytes(
                samples@.take(i as int),
            ) + u16_le(sample_cell(samples@[i as int])));
            assert(out@ =~= header_bytes(n as int, sample_rate as int)
                + data_bytes(samples@.take(i as int + 1)));
        }
        i = i + 1;
    }
    proof {
        assert(samples@.take(n as int) =~= samples@);
    }
    out
}

/// A decoded recording: the mono samples and the rate they were captured at.
#[derive(Debug)]
pub struct WavAudio {
    pub samples: Vec<i16>,
    pub sample_rate: u32,
}

fn get_u16_le(b: &Vec<u8>, i: usize) -> (v: u16)
    requires
        i + 2 <= b@.len(),
    ensures
        v as int == le16_at(b@, i as int),
{
    let l: usize = b.len();
    proof {
        assert(i + 2 <= l);
    }
    (b[i] as u16) + 256 * (b[i + 1] as u16)
}

fn get_u32_le(b: &Vec<u8>, i: usize) -> (v: u32)
    requires
        i + 4 <= b@.len(),
    ensures
        v as int == le32_at(b@, i as int),
{
    let l: usize = b.len();
    proof {
        assert(i + 4 <= l);
    }
    (b[i] as u32) + 256 * (b[i + 1] as u32) + 65536 * (b[i + 2] as u32) + 16777216 * (b[i
        + 3] as u32)
}

/// Decode a file image this library's encoder lays out: a mono, 16-bit,
/// integer pulse-code file with the canonical 44-byte header.  Returns the
/// samples and the sample rate, or `DecodeFailure` on anything else.
pub fn decode_wav(bytes: &Vec<u8>) -> (r: Result<WavAudio, PlayError>)
    ensures
        match r {
            Ok(w) => parse_wav(bytes@) == Some((w.samples@, w.sample_rate as int)),
            Err(e) => e == PlayError::DecodeFailure && parse_wav(bytes@) is None,
        },
{
    let len: usize = bytes.len();
    if len < 44 {
        return Err(PlayError::DecodeFailure);
    }
    if (len - 44) % 2 != 0 {
        return Err(PlayError::DecodeFailure);
    }
    if bytes[0] != 0x52 || bytes[1] != 0x49 || bytes[2] != 0x46 || bytes[3] != 0x46 {
        return Err(PlayError::DecodeFailure);
    }
    let riff_size: u32 = get_u32_le(bytes, 4);
    if riff_size as u64 != (len - 8) as u64 {
        return Err(PlayError::DecodeFailure);
    }
    if bytes[8] != 0x57 || bytes[9] != 0x41 || bytes[10] != 0x56 || bytes[11] != 0x45 {
        return Err(PlayError::DecodeFailure);
    }
    if bytes[12] != 0x66 || bytes[13] != 0x6d || bytes[14] != 0x74 || bytes[15] != 0x20 {
        return Err(PlayError::DecodeFailure);
    }
    if get_u32_le(bytes, 16) != 16 {
        return Err(PlayError::DecodeFailure);
    }
    if get_u16_le(bytes, 20) != 1 {
        return Err(PlayError::DecodeFailure);
    }
    if get_u16_le(bytes, 22) != 1 {
        return Err(PlayError::DecodeFailure);
    }
    let sample_rate: u32 = get_u32_le(bytes, 24);
    if sample_rate == 0 {
        return Err(PlayError::DecodeFailure);
    }
    let byte_rate: u32 = get_u32_le(bytes, 28);
    if byte_rate as u64 != 2 * (sample_rate as u64) {
        return Err(PlayError::DecodeFailure);
    }
    if get_u16_le(bytes, 32) != 2 {
        return Err(PlayError::DecodeFailure);
    }
    if get_u16_le(bytes, 34) != 16 {
        return Err(PlayError::DecodeFailure);
    }
    if bytes[36] != 0x64 || bytes[37] != 0x61 || bytes[38] != 0x74 || bytes[39] != 0x61 {
        return Err(PlayError::DecodeFailure);
    }
    let data_size: u32 = get_u32_le(bytes, 40);
    if data_size as u64 != (len - 44) as u64 {
        return Err(PlayError::DecodeFailure);
    }
    let count: usize = (len - 44) / 2;
    let mut samples: Vec<i16> = Vec::new();
    let mut i: usize = 0;
    while i < count
        invariant
            bytes@.len() == len,
            44 <= len,
            (len - 44) % 2 == 0,
            count == (len - 44) / 2,
            0 <= i <= count,
            samples@.len() == i,
            forall|k: int|
                0 <= k < i ==> samples@[k] == cell_sample(le16_at(bytes@, 44 + 2 * k)),
        decreases count - i,
    {
        let cell: u16 = get_u16_le(bytes, 44 + 2 * i);
        let v: i16 = if cell < 32768 {
            cell as i16
        } else {
            ((cell as i32) - 65536) as i16
        };
        proof {
            assert(v == cell_sample(cell as int));
        }
        samples.push(v);
        i = i + 1;
    }
    proof {
        let d = bytes@.skip(44);
        assert(d.len() == len - 44);
        assert forall|k: int| 0 <= k < count implies parse_samples(d)[k] == samples@[k] by {
            assert(le16_at(d, 2 * k) == le16_at(bytes@, 44 + 2 * k));
        }
        assert(samples@ =~= parse_samples(d));
        assert(header_ok(bytes@));
    }
    Ok(WavAudio { samples, sample_rate })
}

} // verus!
