//! Byte strings: little-endian numbers, appending, and flushing in chunks.

use vstd::prelude::*;
use vstd::slice::slice_subrange;
use vstd::slice::slice_to_vec;
use vstd::utf8::encode_utf8;

verus! {

/// The largest number of bytes that is written and flushed at once.
pub const FLUSH_LIMIT: usize = 4096;

/// The two bytes of a number, the least significant first.
pub open spec fn le16(n: int) -> Seq<u8> {
    seq![(n % 256) as u8, (n / 256 % 256) as u8]
}

/// The four bytes of a number, the least significant first.
pub open spec fn le32(n: int) -> Seq<u8> {
    seq![
        (n % 256) as u8,
        (n / 256 % 256) as u8,
        (n / 65536 % 256) as u8,
        (n / 16777216 % 256) as u8,
    ]
}

/// Append `other` to `buf`.
pub fn append_bytes(buf: &mut Vec<u8>, other: &[u8])
    ensures
        final(buf)@ == old(buf)@ + other@,
{
    buf.extend_from_slice(other);
    proof {
        assert(buf@ =~= old(buf)@ + other@);
    }
}

/// Append the UTF-8 encoding of `text` to `buf`.
pub fn append_text(buf: &mut Vec<u8>, text: &str)
    ensures
        final(buf)@ == old(buf)@ + encode_utf8(text@),
{
    append_bytes(buf, text.as_bytes());
}

/// Append `n` to `buf` as two bytes, the least significant first.
pub fn append_le16(buf: &mut Vec<u8>, n: u16)
    ensures
        final(buf)@ == old(buf)@ + le16(n as int),
{
    buf.push((n % 256) as u8);
    buf.push((n / 256) as u8);
    proof {
        assert(buf@ =~= old(buf)@ + le16(n as int));
    }
}

/// Append `n` to `buf` as four bytes, the least significant first.
pub fn append_le32(buf: &mut Vec<u8>, n: u32)
    ensures
        final(buf)@ == old(buf)@ + le32(n as int),
{
    buf.push((n % 256) as u8);
    buf.push((n / 256 % 256) as u8);
    buf.push((n / 65536 % 256) as u8);
    buf.push((n / 16777216) as u8);
    proof {
        assert(buf@ =~= old(buf)@ + le32(n as int));
    }
}

/// Bytes cut into pieces of the flush limit; the last piece holds what is left.
pub open spec fn pieces(data: Seq<u8>) -> Seq<Seq<u8>>
    decreases data.len(),
{
    if data.len() == 0 {
        Seq::empty()
    } else if data.len() <= FLUSH_LIMIT {
        seq![data]
    } else {
        seq![data.take(FLUSH_LIMIT as int)] + pieces(data.skip(FLUSH_LIMIT as int))
    }
}

/// Cut `data` into the pieces that are written and flushed one by one.
pub fn flush_pieces(data: &[u8]) -> (r: Vec<Vec<u8>>)
    ensures
        r@.map_values(|piece: Vec<u8>| piece@) == pieces(data@),
{
    let ghost seen = |piece: Vec<u8>| piece@;
    let mut out: Vec<Vec<u8>> = Vec::new();
    let mut start: usize = 0;
    proof {
        assert(data@.skip(0) =~= data@);
        assert(out@.map_values(seen) + pieces(data@) =~= pieces(data@));
    }
    while start < data.len()
        invariant
            start <= data@.len(),
            seen == (|piece: Vec<u8>| piece@),
            out@.map_values(seen) + pieces(data@.skip(start as int)) == pieces(data@),
        decreases data@.len() - start,
    {
        let left: usize = data.len() - start;
        let size: usize = if left <= FLUSH_LIMIT {
            left
        } else {
            FLUSH_LIMIT
        };
        let piece = slice_to_vec(slice_subrange(data, start, start + size));
        let ghost before = out@;
        let ghost rest = data@.skip(start as int);
        proof {
            assert(piece@ =~= rest.take(size as int));
            assert(rest.skip(size as int) =~= data@.skip(start + size));
            if left <= FLUSH_LIMIT {
                assert(rest.take(size as int) =~= rest);
                assert(pieces(data@.skip(start + size)) =~= Seq::empty());
            }
            assert(pieces(rest) =~= seq![piece@] + pieces(data@.skip(start + size)));
            assert(before.push(piece).map_values(seen) =~= before.map_values(seen).push(piece@));
            assert(before.map_values(seen).push(piece@) + pieces(data@.skip(start + size))
                =~= before.map_values(seen) + pieces(rest));
        }
        out.push(piece);
        start += size;
    }
    proof {
        assert(pieces(data@.skip(start as int)) =~= Seq::empty());
        assert(out@.map_values(seen) + pieces(data@.skip(start as int)) =~= out@.map_values(seen));
    }
    out
}

/// The pieces make up the data, in order; each but the last has 4096 bytes, and
/// the last has at least one and no more than that.
pub proof fn pieces_make_up_the_data(data: Seq<u8>)
    ensures
        pieces(data).flatten() == data,
        forall|i: int| 0 <= i < pieces(data).len() ==> 0 < (#[trigger] pieces(data)[i]).len()
            <= 4096,
        forall|i: int|
            0 <= i < pieces(data).len() - 1 ==> (#[trigger] pieces(data)[i]).len() == 4096,
    decreases data.len(),
{
    let all = pieces(data);
    if data.len() == 0 {
        assert(all.flatten() =~= data);
    } else if data.len() <= FLUSH_LIMIT {
        reveal_with_fuel(Seq::flatten, 2);
        assert(all.drop_first() =~= Seq::empty());
        assert(all.flatten() =~= data);
    } else {
        let rest = data.skip(FLUSH_LIMIT as int);
        pieces_make_up_the_data(rest);
        assert(all.drop_first() =~= pieces(rest));
        assert(all.first() == data.take(FLUSH_LIMIT as int));
        assert(all.flatten() =~= data);
        assert forall|i: int| 0 <= i < all.len() implies 0 < (#[trigger] all[i]).len() <= 4096 && (
        i < all.len() - 1 ==> all[i].len() == 4096) by {
            if i > 0 {
                assert(all[i] == pieces(rest)[i - 1]);
            }
        }
    }
}

/// The bytes of a number read back as its low bits, the least significant byte
/// first.
pub proof fn numbers_read_back(n: int)
    requires
        0 <= n < 0x1_0000_0000,
    ensures
        le32(n).len() == 4,
        le32(n)[0] + 0x100 * le32(n)[1] + 0x1_0000 * le32(n)[2] + 0x100_0000 * le32(n)[3] == n,
        le16(n).len() == 2,
        n < 0x1_0000 ==> le16(n)[0] + 0x100 * le16(n)[1] == n,
{
}

/// The encoding of a text is the encodings of its two parts.
pub proof fn encoding_splits(a: Seq<char>, b: Seq<char>)
    ensures
        encode_utf8(a + b) == encode_utf8(a) + encode_utf8(b),
    decreases a.len(),
{
    if a.len() == 0 {
        assert(a + b =~= b);
        assert(encode_utf8(a) + encode_utf8(b) =~= encode_utf8(b));
    } else {
        assert((a + b).drop_first() =~= a.drop_first() + b);
        encoding_splits(a.drop_first(), b);
        assert(encode_utf8(a + b) =~= encode_utf8(a) + encode_utf8(b));
    }
}

} // verus!
