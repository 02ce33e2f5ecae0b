//! The WAV container that batch audio is sent in.

use crate::bytes::append_le16;
use crate::bytes::append_le32;
use crate::bytes::append_text;
use crate::bytes::le16;
use crate::bytes::le32;
use vstd::arithmetic::div_mod::lemma_add_mod_noop_right;
use vstd::arithmetic::div_mod::lemma_hoist_over_denominator;
use vstd::arithmetic::div_mod::lemma_mod_multiples_vanish;
use vstd::arithmetic::div_mod::lemma_mul_mod_noop_left;
use vstd::prelude::*;
use vstd::utf8::encode_utf8;

verus! {

/// The sixteen bits of a sample as a number that is not negative (two's
/// complement).
pub open spec fn sample_bits(v: i16) -> int {
    if v < 0 {
        v + 65536
    } else {
        v as int
    }
}

/// The sample that sixteen bits stand for (two's complement).
pub open spec fn sample_of_bits(n: int) -> int {
    if n < 32768 {
        n
    } else {
        n - 65536
    }
}

/// The samples as bytes, two each, the least significant first.
pub open spec fn pcm_bytes(samples: Seq<i16>) -> Seq<u8> {
    Seq::new(2 * samples.len(), |i: int| le16(sample_bits(samples[i / 2]))[i % 2])
}

/// The 44 bytes before the samples of a mono 16-bit PCM file with `n` samples.
pub open spec fn wav_header(n: int, sample_rate: int) -> Seq<u8> {
    encode_utf8("RIFF"@) + le32(36 + 2 * n) + encode_utf8("WAVE"@) + encode_utf8("fmt "@) + le32(16)
        + le16(1) + le16(1) + le32(sample_rate) + le32(2 * sample_rate) + le16(2) + le16(16)
        + encode_utf8("data"@) + le32(2 * n)
}

/// A mono 16-bit PCM file.
pub open spec fn wav_file(samples: Seq<i16>, sample_rate: int) -> Seq<u8> {
    wav_header(samples.len() as int, sample_rate) + pcm_bytes(samples)
}

/// A cast to 32 bits keeps the low 32 bits.
proof fn low_32_bits(n: usize)
    ensures
        n as u32 == (n as int) % 0x1_0000_0000,
{
    let m: u64 = n as u64;
    assert(m as u32 == m % 0x1_0000_0000) by (bit_vector);
}

/// Four bytes hold the low 32 bits of a number.
proof fn le32_keeps_low_bits(n: int)
    requires
        0 <= n,
    ensures
        le32(n % 0x1_0000_0000) == le32(n),
{
    let q = n / 0x1_0000_0000;
    let m = n % 0x1_0000_0000;
    assert(n == m + 0x1_0000_0000 * q);
    lemma_mod_multiples_vanish(16777216 * q, m, 256);
    lemma_hoist_over_denominator(m, 16777216 * q, 256);
    lemma_mod_multiples_vanish(65536 * q, m / 256, 256);
    lemma_hoist_over_denominator(m, 65536 * q, 65536);
    lemma_mod_multiples_vanish(256 * q, m / 65536, 256);
    lemma_hoist_over_denominator(m, 256 * q, 16777216);
    lemma_mod_multiples_vanish(q, m / 16777216, 256);
}

/// Encode 16-bit samples as a 16-bit PCM mono WAV. A length or a byte rate that
/// does not fit in its 32-bit field is cut down to the low 32 bits.
#[must_use]
pub fn encode_wav(samples: &[i16], sample_rate: u32) -> (r: Vec<u8>)
    ensures
        r@ == wav_file(samples@, sample_rate as int),
{
    let bytes_per_sample: u32 = 2;
    let count: u32 = #[verifier::truncate]
    (samples.len() as u32);
    let data_len: u32 = count.wrapping_mul(bytes_per_sample);
    let riff_len: u32 = data_len.wrapping_add(36);
    let byte_rate: u32 = sample_rate.wrapping_mul(bytes_per_sample);
    proof {
        let n = samples@.len() as int;
        low_32_bits(samples.len());
        lemma_mul_mod_noop_left(n, 2, 0x1_0000_0000);
        lemma_add_mod_noop_right(36, 2 * n, 0x1_0000_0000);
        assert(data_len == (2 * n) % 0x1_0000_0000);
        assert(riff_len == (36 + 2 * n) % 0x1_0000_0000);
        assert(byte_rate == (2 * sample_rate) % 0x1_0000_0000);
        le32_keeps_low_bits(2 * n);
        le32_keeps_low_bits(36 + 2 * n);
        le32_keeps_low_bits(2 * sample_rate);
    }
    let mut buf: Vec<u8> = Vec::new();
    append_text(&mut buf, "RIFF");
    append_le32(&mut buf, riff_len);
    append_text(&mut buf, "WAVE");
    append_text(&mut buf, "fmt ");
    append_le32(&mut buf, 16);  // PCM fmt chunk size
    append_le16(&mut buf, 1);  // audio format = PCM
    append_le16(&mut buf, 1);  // channels = mono
    append_le32(&mut buf, sample_rate);
    append_le32(&mut buf, byte_rate);  // byte rate
    append_le16(&mut buf, bytes_per_sample as u16);  // block align
    append_le16(&mut buf, 16);  // bits per sample
    append_text(&mut buf, "data");
    append_le32(&mut buf, data_len);
    let ghost header = wav_header(samples@.len() as int, sample_rate as int);
    proof {
        assert(buf@ =~= header);
        assert(pcm_bytes(samples@.take(0)) =~= Seq::empty());
        assert(buf@ =~= header + pcm_bytes(samples@.take(0)));
    }
    let mut i: usize = 0;
    while i < samples.len()
        invariant
            i <= samples@.len(),
            buf@ == header + pcm_bytes(samples@.take(i as int)),
        decreases samples@.len() - i,
    {
        let v: i16 = samples[i];
        let bits: u16 = if v < 0 {
            (v as i32 + 65536) as u16
        } else {
            v as u16
        };
        append_le16(&mut buf, bits);
        proof {
            let before = samples@.take(i as int);
            let after = samples@.take(i + 1);
            assert(pcm_bytes(after) =~= pcm_bytes(before) + le16(sample_bits(v)));
            assert(header + pcm_bytes(before) + le16(sample_bits(v)) =~= header + pcm_bytes(after));
        }
        i += 1;
    }
    proof {
        assert(samples@.take(i as int) =~= samples@);
    }
    buf
}

/// Reading two bytes back gives the number that was written.
proof fn le16_reads_back(n: int)
    requires
        0 <= n < 65536,
    ensures
        le16(n)[0] + 256 * le16(n)[1] == n,
{
}

/// Reading four bytes back gives the number that was written.
proof fn le32_reads_back(n: int)
    requires
        0 <= n < 0x1_0000_0000,
    ensures
        read_le32(le32(n), 0) == n,
{
}

/// The header takes 44 bytes, with each field in its place.
pub proof fn wav_header_layout(n: int, sample_rate: int)
    ensures
        wav_header(n, sample_rate).len() == 44,
        wav_header(n, sample_rate).subrange(0, 4) == encode_utf8("RIFF"@),
        wav_header(n, sample_rate).subrange(4, 8) == le32(36 + 2 * n),
        wav_header(n, sample_rate).subrange(8, 12) == encode_utf8("WAVE"@),
        wav_header(n, sample_rate).subrange(12, 16) == encode_utf8("fmt "@),
        wav_header(n, sample_rate).subrange(16, 20) == le32(16),
        wav_header(n, sample_rate).subrange(20, 22) == le16(1),
        wav_header(n, sample_rate).subrange(22, 24) == le16(1),
        wav_header(n, sample_rate).subrange(24, 28) == le32(sample_rate),
        wav_header(n, sample_rate).subrange(28, 32) == le32(2 * sample_rate),
        wav_header(n, sample_rate).subrange(32, 34) == le16(2),
        wav_header(n, sample_rate).subrange(34, 36) == le16(16),
        wav_header(n, sample_rate).subrange(36, 40) == encode_utf8("data"@),
        wav_header(n, sample_rate).subrange(40, 44) == le32(2 * n),
{
    reveal_strlit("RIFF");
    reveal_strlit("WAVE");
    reveal_strlit("fmt ");
    reveal_strlit("data");
    vstd::utf8::is_ascii_chars_encode_utf8("RIFF"@);
    vstd::utf8::is_ascii_chars_encode_utf8("WAVE"@);
    vstd::utf8::is_ascii_chars_encode_utf8("fmt "@);
    vstd::utf8::is_ascii_chars_encode_utf8("data"@);
    let h = wav_header(n, sample_rate);
    assert(h.subrange(0, 4) =~= encode_utf8("RIFF"@));
    assert(h.subrange(4, 8) =~= le32(36 + 2 * n));
    assert(h.subrange(8, 12) =~= encode_utf8("WAVE"@));
    assert(h.subrange(12, 16) =~= encode_utf8("fmt "@));
    assert(h.subrange(16, 20) =~= le32(16));
    assert(h.subrange(20, 22) =~= le16(1));
    assert(h.subrange(22, 24) =~= le16(1));
    assert(h.subrange(24, 28) =~= le32(sample_rate));
    assert(h.subrange(28, 32) =~= le32(2 * sample_rate));
    assert(h.subrange(32, 34) =~= le16(2));
    assert(h.subrange(34, 36) =~= le16(16));
    assert(h.subrange(36, 40) =~= encode_utf8("data"@));
    assert(h.subrange(40, 44) =~= le32(2 * n));
}

/// The number that four bytes hold, the least significant first.
pub open spec fn read_le32(b: Seq<u8>, at: int) -> int {
    b[at] + 256 * b[at + 1] + 65536 * b[at + 2] + 16777216 * b[at + 3]
}

/// The file is 44 bytes and two per sample long, which is what its two length
/// fields say where they can hold it; its rates are those of the audio.
pub proof fn wav_header_is_true(samples: Seq<i16>, sample_rate: int)
    requires
        36 + 2 * samples.len() < 0x1_0000_0000,
        0 <= 2 * sample_rate < 0x1_0000_0000,
    ensures
        ({
            let f = wav_file(samples, sample_rate);
            &&& f.len() == 44 + 2 * samples.len()
            &&& read_le32(f, 4) == f.len() - 8
            &&& read_le32(f, 24) == sample_rate
            &&& read_le32(f, 28) == 2 * sample_rate
            &&& read_le32(f, 40) == f.len() - 44
        }),
{
    let n = samples.len() as int;
    let h = wav_header(n, sample_rate);
    let f = wav_file(samples, sample_rate);
    wav_header_layout(n, sample_rate);
    le32_reads_back(36 + 2 * n);
    le32_reads_back(sample_rate);
    le32_reads_back(2 * sample_rate);
    le32_reads_back(2 * n);
    header_number(h, pcm_bytes(samples), 4);
    header_number(h, pcm_bytes(samples), 24);
    header_number(h, pcm_bytes(samples), 28);
    header_number(h, pcm_bytes(samples), 40);
}

/// A number in the header is read the same with and without what follows it.
proof fn header_number(head: Seq<u8>, tail: Seq<u8>, at: int)
    requires
        0 <= at,
        at + 4 <= head.len(),
    ensures
        read_le32(head + tail, at) == read_le32(head.subrange(at, at + 4), 0),
{
}

/// Every sample can be read back from the file, in order.
pub proof fn wav_reads_back(samples: Seq<i16>, sample_rate: int, i: int)
    requires
        0 <= i < samples.len(),
    ensures
        ({
            let f = wav_file(samples, sample_rate);
            sample_of_bits(f[44 + 2 * i] + 256 * f[45 + 2 * i]) == samples[i]
        }),
{
    wav_header_layout(samples.len() as int, sample_rate);
    let f = wav_file(samples, sample_rate);
    assert(f[44 + 2 * i] == pcm_bytes(samples)[2 * i]);
    assert(f[45 + 2 * i] == pcm_bytes(samples)[2 * i + 1]);
    assert((2 * i) / 2 == i && (2 * i) % 2 == 0);
    assert((2 * i + 1) / 2 == i && (2 * i + 1) % 2 == 1);
    le16_reads_back(sample_bits(samples[i]));
}

/// A file is 44 bytes of header and two bytes for each sample, in order and
/// the least significant first; a negative sample is written as its two's
/// complement. This holds of any number of samples.
pub proof fn wav_holds_all_samples(samples: Seq<i16>, sample_rate: int)
    ensures
        wav_file(samples, sample_rate).len() == 44 + 2 * samples.len(),
        forall|i: int|
            0 <= i < samples.len() ==> wav_file(samples, sample_rate)[44 + 2 * i] + 256 * wav_file(
                samples,
                sample_rate,
            )[45 + 2 * i] == (if (#[trigger] samples[i]) < 0 {
                samples[i] + 65536
            } else {
                samples[i] + 0
            }),
{
    wav_header_layout(samples.len() as int, sample_rate);
    let f = wav_file(samples, sample_rate);
    assert forall|i: int| 0 <= i < samples.len() implies f[44 + 2 * i] + 256 * f[45 + 2 * i] == (
    if (#[trigger] samples[i]) < 0 {
        samples[i] + 65536
    } else {
        samples[i] + 0
    }) by {
        assert(f[44 + 2 * i] == pcm_bytes(samples)[2 * i]);
        assert(f[45 + 2 * i] == pcm_bytes(samples)[2 * i + 1]);
        assert((2 * i) / 2 == i && (2 * i) % 2 == 0);
        assert((2 * i + 1) / 2 == i && (2 * i + 1) % 2 == 1);
        le16_reads_back(sample_bits(samples[i]));
    }
}

/// The number that two bytes of the file hold, the least significant first.
pub open spec fn read_le16(b: Seq<u8>, at: int) -> int {
    b[at] + 256 * b[at + 1]
}

/// The fixed fields of a file say that it is 16-bit mono PCM, and its lengths and
/// rates are those of the audio, each modulo 2 to the 32.
pub proof fn wav_says_what_it_holds(samples: Seq<i16>, sample_rate: int)
    requires
        0 <= sample_rate < 0x1_0000_0000,
    ensures
        ({
            let f = wav_file(samples, sample_rate);
            &&& f.take(4) == seq![0x52u8, 0x49, 0x46, 0x46]
            &&& read_le32(f, 4) == (f.len() - 8) % 0x1_0000_0000
            &&& f.subrange(8, 16) == seq![0x57u8, 0x41, 0x56, 0x45, 0x66, 0x6d, 0x74, 0x20]
            &&& read_le32(f, 16) == 16
            &&& read_le16(f, 20) == 1
            &&& read_le16(f, 22) == 1
            &&& read_le32(f, 24) == sample_rate
            &&& read_le32(f, 28) == (2 * sample_rate) % 0x1_0000_0000
            &&& read_le16(f, 32) == 2
            &&& read_le16(f, 34) == 16
            &&& f.subrange(36, 40) == seq![0x64u8, 0x61, 0x74, 0x61]
            &&& read_le32(f, 40) == (f.len() - 44) % 0x1_0000_0000
        }),
{
    let n = samples.len() as int;
    let h = wav_header(n, sample_rate);
    let f = wav_file(samples, sample_rate);
    wav_header_layout(n, sample_rate);
    wav_holds_all_samples(samples, sample_rate);
    reveal_strlit("RIFF");
    reveal_strlit("WAVE");
    reveal_strlit("fmt ");
    reveal_strlit("data");
    vstd::utf8::is_ascii_chars_encode_utf8("RIFF"@);
    vstd::utf8::is_ascii_chars_encode_utf8("WAVE"@);
    vstd::utf8::is_ascii_chars_encode_utf8("fmt "@);
    vstd::utf8::is_ascii_chars_encode_utf8("data"@);
    assert(f.take(4) =~= h.subrange(0, 4));
    assert(f.take(4) =~= seq![0x52u8, 0x49, 0x46, 0x46]);
    assert(f.subrange(8, 16) =~= h.subrange(8, 12) + h.subrange(12, 16));
    assert(f.subrange(8, 16) =~= seq![0x57u8, 0x41, 0x56, 0x45, 0x66, 0x6d, 0x74, 0x20]);
    assert(f.subrange(36, 40) =~= h.subrange(36, 40));
    assert(f.subrange(36, 40) =~= seq![0x64u8, 0x61, 0x74, 0x61]);
    le32_keeps_low_bits(36 + 2 * n);
    le32_keeps_low_bits(2 * sample_rate);
    le32_keeps_low_bits(2 * n);
    le32_reads_back((36 + 2 * n) % 0x1_0000_0000);
    le32_reads_back(16);
    le32_reads_back(sample_rate);
    le32_reads_back((2 * sample_rate) % 0x1_0000_0000);
    le32_reads_back((2 * n) % 0x1_0000_0000);
    header_number(h, pcm_bytes(samples), 4);
    header_number(h, pcm_bytes(samples), 16);
    header_number(h, pcm_bytes(samples), 24);
    header_number(h, pcm_bytes(samples), 28);
    header_number(h, pcm_bytes(samples), 40);
    le16_reads_back(1);
    le16_reads_back(2);
    le16_reads_back(16);
    header_short(h, pcm_bytes(samples), 20);
    header_short(h, pcm_bytes(samples), 22);
    header_short(h, pcm_bytes(samples), 32);
    header_short(h, pcm_bytes(samples), 34);
}

/// A short number in the header is read the same with and without what follows
/// it.
proof fn header_short(head: Seq<u8>, tail: Seq<u8>, at: int)
    requires
        0 <= at,
        at + 2 <= head.len(),
    ensures
        read_le16(head + tail, at) == read_le16(head.subrange(at, at + 2), 0),
{
}

} // verus!
