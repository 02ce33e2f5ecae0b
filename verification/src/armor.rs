//! Base64, as audio travels in JSON.

use base64::Engine as _;
use vstd::prelude::*;

verus! {

/// The character of the standard alphabet for six bits.
pub open spec fn base64_char(n: int) -> char {
    if n < 26 {
        (65 + n) as char
    } else if n < 52 {
        (97 + n - 26) as char
    } else if n < 62 {
        (48 + n - 52) as char
    } else if n == 62 {
        '+'
    } else {
        '/'
    }
}

/// The base64 text of bytes: three bytes make four characters, and the last
/// four are filled up with `=`.
pub open spec fn base64_text(b: Seq<u8>) -> Seq<char>
    decreases b.len(),
{
    if b.len() == 0 {
        Seq::empty()
    } else if b.len() == 1 {
        seq![base64_char((b[0] / 4) as int), base64_char(b[0] % 4 * 16), '=', '=']
    } else if b.len() == 2 {
        seq![
            base64_char((b[0] / 4) as int),
            base64_char(b[0] % 4 * 16 + b[1] / 16),
            base64_char(b[1] % 16 * 4),
            '=',
        ]
    } else {
        seq![
            base64_char((b[0] / 4) as int),
            base64_char(b[0] % 4 * 16 + b[1] / 16),
            base64_char(b[1] % 16 * 4 + b[2] / 64),
            base64_char((b[2] % 64) as int),
        ] + base64_text(b.skip(3))
    }
}

/// The length of the base64 text of `n` bytes.
pub open spec fn base64_len(n: nat) -> nat {
    (n + 2) / 3 * 4
}

/// Calls `encode` of `base64::engine::general_purpose::STANDARD`: the base64
/// text with the standard alphabet and with padding. Bytes whose text does not
/// fit in memory are left out.
#[verifier::external_body]
pub(crate) fn encode_base64(b: &[u8]) -> (r: String)
    requires
        base64_len(b@.len()) <= isize::MAX,
    ensures
        r@ == base64_text(b@),
{
    base64::engine::general_purpose::STANDARD.encode(b)
}

/// Six bits are told from each other, and from padding, by their character.
proof fn base64_char_tells_bits(m: int, n: int)
    requires
        0 <= m < 64,
        0 <= n < 64,
        base64_char(m) == base64_char(n),
    ensures
        m == n,
{
}

/// No six bits look like padding.
proof fn base64_char_is_no_padding(n: int)
    requires
        0 <= n < 64,
    ensures
        base64_char(n) != '=',
{
}

/// The text has the length that is said.
pub proof fn base64_text_len(b: Seq<u8>)
    ensures
        base64_text(b).len() == base64_len(b.len()),
    decreases b.len(),
{
    if b.len() >= 3 {
        base64_text_len(b.skip(3));
    }
}

/// The first four characters stand for the first three bytes.
proof fn base64_quad(b: Seq<u8>)
    requires
        b.len() >= 3,
    ensures
        base64_text(b).len() >= 4,
        base64_text(b)[0] == base64_char((b[0] / 4) as int),
        base64_text(b)[1] == base64_char(b[0] % 4 * 16 + b[1] / 16),
        base64_text(b)[2] == base64_char(b[1] % 16 * 4 + b[2] / 64),
        base64_text(b)[3] == base64_char((b[2] % 64) as int),
        base64_text(b).skip(4) == base64_text(b.skip(3)),
{
    assert(base64_text(b).skip(4) =~= base64_text(b.skip(3)));
}

/// Nothing is lost in base64: different bytes have different texts.
pub proof fn base64_is_lossless(a: Seq<u8>, b: Seq<u8>)
    requires
        base64_text(a) == base64_text(b),
    ensures
        a == b,
    decreases a.len(),
{
    base64_text_len(a);
    base64_text_len(b);
    let s = base64_text(a);
    let t = base64_text(b);
    if a.len() > 0 {
        assert(b.len() > 0);
        base64_char_is_no_padding((b[1] % 16 * 4) as int);
        base64_char_is_no_padding((a[1] % 16 * 4) as int);
        base64_char_is_no_padding(b[1] % 16 * 4 + b[2] / 64);
        base64_char_is_no_padding(a[1] % 16 * 4 + a[2] / 64);
        base64_char_is_no_padding((b[2] % 64) as int);
        base64_char_is_no_padding((a[2] % 64) as int);
        assert(s[0] == t[0] && s[1] == t[1] && s[2] == t[2] && s[3] == t[3]);
        if a.len() == 1 {
            assert(s[2] == '=');
            assert(b.len() == 1);
            base64_char_tells_bits((a[0] / 4) as int, (b[0] / 4) as int);
            base64_char_tells_bits((a[0] % 4 * 16) as int, (b[0] % 4 * 16) as int);
        } else if a.len() == 2 {
            assert(s[3] == '=');
            assert(b.len() == 2);
            base64_char_tells_bits((a[0] / 4) as int, (b[0] / 4) as int);
            base64_char_tells_bits(a[0] % 4 * 16 + a[1] / 16, b[0] % 4 * 16 + b[1] / 16);
            base64_char_tells_bits((a[1] % 16 * 4) as int, (b[1] % 16 * 4) as int);
        } else {
            assert(b.len() >= 3);
            base64_quad(a);
            base64_quad(b);
            base64_char_tells_bits((a[0] / 4) as int, (b[0] / 4) as int);
            base64_char_tells_bits(a[0] % 4 * 16 + a[1] / 16, b[0] % 4 * 16 + b[1] / 16);
            base64_char_tells_bits(a[1] % 16 * 4 + a[2] / 64, b[1] % 16 * 4 + b[2] / 64);
            base64_char_tells_bits((a[2] % 64) as int, (b[2] % 64) as int);
            base64_is_lossless(a.skip(3), b.skip(3));
            assert forall|i: int| 3 <= i < a.len() implies a[i] == b[i] by {
                assert(a.skip(3)[i - 3] == a[i]);
                assert(b.skip(3)[i - 3] == b[i]);
            }
        }
    } else {
        assert(b.len() == 0);
    }
    assert(a =~= b);
}

} // verus!
