//! Operations on text, stated over the sequence of its characters.

use vstd::prelude::*;
use vstd::string::StrSliceExecFns;
use vstd::string::StringExecFns;

verus! {

/// The character with an ASCII upper-case letter replaced by its lower-case one.
pub open spec fn ascii_lower_char(c: char) -> char {
    if 'A' <= c && c <= 'Z' {
        ((c as u32) + 32) as char
    } else {
        c
    }
}

/// The text with every ASCII upper-case letter replaced by its lower-case one.
pub open spec fn ascii_lower(s: Seq<char>) -> Seq<char> {
    s.map_values(|c: char| ascii_lower_char(c))
}

/// Whether the character has the Unicode property `White_Space`.
pub open spec fn is_white_space(c: char) -> bool {
    let n = c as u32;
    ||| 0x09 <= n <= 0x0d
    ||| n == 0x20
    ||| n == 0x85
    ||| n == 0xa0
    ||| n == 0x1680
    ||| 0x2000 <= n <= 0x200a
    ||| n == 0x2028
    ||| n == 0x2029
    ||| n == 0x202f
    ||| n == 0x205f
    ||| n == 0x3000
}

/// The text without its leading white space.
pub open spec fn without_leading_white_space(s: Seq<char>) -> Seq<char>
    decreases s.len(),
{
    if s.len() > 0 && is_white_space(s.first()) {
        without_leading_white_space(s.drop_first())
    } else {
        s
    }
}

/// The text without its trailing white space.
pub open spec fn without_trailing_white_space(s: Seq<char>) -> Seq<char>
    decreases s.len(),
{
    if s.len() > 0 && is_white_space(s.last()) {
        without_trailing_white_space(s.drop_last())
    } else {
        s
    }
}

/// The text without leading and trailing white space.
pub open spec fn trimmed(s: Seq<char>) -> Seq<char> {
    without_trailing_white_space(without_leading_white_space(s))
}

/// The text without its trailing slashes.
pub open spec fn without_trailing_slashes(s: Seq<char>) -> Seq<char>
    decreases s.len(),
{
    if s.len() > 0 && s.last() == '/' {
        without_trailing_slashes(s.drop_last())
    } else {
        s
    }
}

/// The text up to the first question mark, or all of it.
pub open spec fn before_question_mark(s: Seq<char>) -> Seq<char>
    decreases s.len(),
{
    if s.len() == 0 || s.first() == '?' {
        Seq::empty()
    } else {
        seq![s.first()] + before_question_mark(s.drop_first())
    }
}

/// The decimal digits of a number, without leading zeros.
pub open spec fn decimal(n: nat) -> Seq<char>
    decreases n,
{
    let digit = (48 + n % 10) as char;
    if n < 10 {
        seq![digit]
    } else {
        decimal(n / 10).push(digit)
    }
}

/// The characters of an optional text.
pub open spec fn optional_text(s: Option<&str>) -> Option<Seq<char>> {
    match s {
        Some(t) => Some(t@),
        None => None,
    }
}

/// The characters of an optional owned text.
pub open spec fn optional_string(s: Option<String>) -> Option<Seq<char>> {
    match s {
        Some(t) => Some(t@),
        None => None,
    }
}

/// The characters of `s` as a vector.
pub fn characters(s: &str) -> (r: Vec<char>)
    ensures
        r@ == s@,
{
    let mut out: Vec<char> = Vec::new();
    for c in it: s.chars()
        invariant
            it.seq() == s@,
            out@ == s@.take(it.index() as int),
    {
        out.push(c);
    }
    proof {
        assert(s@.take(s@.len() as int) =~= s@);
    }
    out
}

/// Whether two texts are the same.
pub fn same_text(a: &str, b: &str) -> (r: bool)
    ensures
        r == (a@ == b@),
{
    let x = characters(a);
    let y = characters(b);
    if x.len() != y.len() {
        return false;
    }
    let mut i: usize = 0;
    while i < x.len()
        invariant
            x@ == a@,
            y@ == b@,
            x.len() == y.len(),
            i <= x.len(),
            forall|j: int| 0 <= j < i ==> a@[j] == b@[j],
        decreases x.len() - i,
    {
        if x[i] != y[i] {
            return false;
        }
        i += 1;
    }
    proof {
        assert(a@ =~= b@);
    }
    true
}

/// `c` with an ASCII upper-case letter replaced by its lower-case one.
fn lower_char(c: char) -> (r: char)
    ensures
        r == ascii_lower_char(c),
{
    if 'A' <= c && c <= 'Z' {
        let b: u8 = c as u8;
        (b + 32) as char
    } else {
        c
    }
}

/// Whether two texts are the same but for the case of ASCII letters.
pub fn equals_ignoring_case(a: &str, b: &str) -> (r: bool)
    ensures
        r == (ascii_lower(a@) == ascii_lower(b@)),
{
    let x = characters(a);
    let y = characters(b);
    if x.len() != y.len() {
        proof {
            assert(ascii_lower(a@).len() != ascii_lower(b@).len());
        }
        return false;
    }
    let mut i: usize = 0;
    while i < x.len()
        invariant
            x@ == a@,
            y@ == b@,
            x.len() == y.len(),
            i <= x.len(),
            forall|j: int| 0 <= j < i ==> ascii_lower(a@)[j] == ascii_lower(b@)[j],
        decreases x.len() - i,
    {
        if lower_char(x[i]) != lower_char(y[i]) {
            proof {
                assert(ascii_lower(a@)[i as int] != ascii_lower(b@)[i as int]);
            }
            return false;
        }
        i += 1;
    }
    proof {
        assert(ascii_lower(a@) =~= ascii_lower(b@));
    }
    true
}

/// What follows `prefix` in `s`, if `s` starts with it.
pub fn strip_prefix<'a>(s: &'a str, prefix: &str) -> (r: Option<&'a str>)
    ensures
        r is Some <==> prefix@.is_prefix_of(s@),
        r matches Some(rest) ==> rest@ == s@.skip(prefix@.len() as int),
{
    let x = characters(s);
    let p = characters(prefix);
    if x.len() < p.len() {
        return None;
    }
    let mut i: usize = 0;
    while i < p.len()
        invariant
            x@ == s@,
            p@ == prefix@,
            p.len() <= x.len(),
            i <= p.len(),
            forall|j: int| 0 <= j < i ==> s@[j] == prefix@[j],
        decreases p.len() - i,
    {
        if x[i] != p[i] {
            proof {
                assert(s@.subrange(0, prefix@.len() as int)[i as int] == s@[i as int]);
            }
            return None;
        }
        i += 1;
    }
    proof {
        assert(s@.subrange(0, prefix@.len() as int) =~= prefix@);
    }
    Some(s.substring_char(p.len(), x.len()))
}

/// `s` without its trailing slashes.
pub fn trim_end_slashes(s: &str) -> (r: &str)
    ensures
        r@ == without_trailing_slashes(s@),
{
    let x = characters(s);
    let mut n: usize = x.len();
    proof {
        assert(s@.take(n as int) =~= s@);
    }
    while n > 0 && x[n - 1] == '/'
        invariant
            x@ == s@,
            n <= x.len(),
            without_trailing_slashes(s@.take(n as int)) == without_trailing_slashes(s@),
        decreases n,
    {
        proof {
            assert(s@.take(n as int).drop_last() =~= s@.take(n - 1));
        }
        n -= 1;
    }
    proof {
        assert(s@.subrange(0, n as int) =~= s@.take(n as int));
    }
    s.substring_char(0, n)
}

/// Whether `c` is white space.
pub fn white_space(c: char) -> (r: bool)
    ensures
        r == is_white_space(c),
{
    let n: u32 = c as u32;
    (0x09 <= n && n <= 0x0d) || n == 0x20 || n == 0x85 || n == 0xa0 || n == 0x1680
        || (0x2000 <= n && n <= 0x200a) || n == 0x2028 || n == 0x2029 || n == 0x202f
        || n == 0x205f || n == 0x3000
}

/// `s` without leading and trailing white space.
pub fn trim(s: &str) -> (r: &str)
    ensures
        r@ == trimmed(s@),
{
    let x = characters(s);
    let mut start: usize = 0;
    proof {
        assert(s@.skip(0) =~= s@);
    }
    while start < x.len() && white_space(x[start])
        invariant
            x@ == s@,
            start <= x.len(),
            without_leading_white_space(s@.skip(start as int)) == without_leading_white_space(s@),
        decreases x.len() - start,
    {
        proof {
            assert(s@.skip(start as int).drop_first() =~= s@.skip(start + 1));
        }
        start += 1;
    }
    let ghost rest = s@.skip(start as int);
    let mut end: usize = x.len();
    proof {
        assert(rest == without_leading_white_space(s@));
        assert(rest.take(end - start) =~= rest);
    }
    while end > start && white_space(x[end - 1])
        invariant
            x@ == s@,
            start <= end <= x.len(),
            rest == s@.skip(start as int),
            without_trailing_white_space(rest.take(end - start))
                == without_trailing_white_space(rest),
        decreases end,
    {
        proof {
            assert(rest.take(end - start).last() == x@[end - 1]);
            assert(rest.take(end - start).drop_last() =~= rest.take(end - start - 1));
        }
        end -= 1;
    }
    proof {
        if end > start {
            assert(rest.take(end - start).last() == x@[end - 1]);
        }
        assert(s@.subrange(start as int, end as int) =~= rest.take(end - start));
    }
    s.substring_char(start, end)
}

/// `s` up to its first question mark, or all of it.
pub fn before_query(s: &str) -> (r: &str)
    ensures
        r@ == before_question_mark(s@),
{
    let x = characters(s);
    let mut n: usize = 0;
    proof {
        assert(s@.take(0) =~= Seq::empty());
        assert(s@.skip(0) =~= s@);
        assert(s@.take(0) + before_question_mark(s@) =~= before_question_mark(s@));
    }
    while n < x.len() && x[n] != '?'
        invariant
            x@ == s@,
            n <= x.len(),
            s@.take(n as int) + before_question_mark(s@.skip(n as int))
                == before_question_mark(s@),
        decreases x.len() - n,
    {
        proof {
            assert(s@.skip(n as int).drop_first() =~= s@.skip(n + 1));
            assert(s@.take(n as int) + (seq![s@[n as int]] + before_question_mark(s@.skip(n + 1)))
                =~= s@.take(n + 1) + before_question_mark(s@.skip(n + 1)));
        }
        n += 1;
    }
    proof {
        assert(before_question_mark(s@.skip(n as int)) =~= Seq::empty());
        assert(s@.take(n as int) + Seq::<char>::empty() =~= s@.take(n as int));
        assert(s@.subrange(0, n as int) =~= s@.take(n as int));
    }
    s.substring_char(0, n)
}

/// One decimal digit.
fn digit(n: u16) -> (r: &'static str)
    requires
        n < 10,
    ensures
        r@ == seq![(48 + n) as char],
{
    proof {
        reveal_strlit("0");
        reveal_strlit("1");
        reveal_strlit("2");
        reveal_strlit("3");
        reveal_strlit("4");
        reveal_strlit("5");
        reveal_strlit("6");
        reveal_strlit("7");
        reveal_strlit("8");
        reveal_strlit("9");
    }
    let r = match n {
        0 => "0",
        1 => "1",
        2 => "2",
        3 => "3",
        4 => "4",
        5 => "5",
        6 => "6",
        7 => "7",
        8 => "8",
        _ => "9",
    };
    proof {
        assert(r@ =~= seq![(48 + n) as char]);
    }
    r
}

/// `n` in decimal.
pub fn decimal_text(n: u16) -> (r: String)
    ensures
        r@ == decimal(n as nat),
    decreases n,
{
    let last = digit(n % 10);
    if n < 10 {
        last.to_string()
    } else {
        let mut out = decimal_text(n / 10);
        out.append(last);
        proof {
            assert(out@ =~= decimal((n / 10) as nat).push((48 + n % 10) as char));
        }
        out
    }
}

/// Lower case keeps the length, adds 32 to the code of each of `A` to `Z`, and
/// keeps every other character.
pub proof fn lower_case_changes_capitals_only(s: Seq<char>)
    ensures
        ascii_lower(s).len() == s.len(),
        forall|i: int|
            0 <= i < s.len() ==> (#[trigger] ascii_lower(s)[i]) as u32 == (if 65 <= s[i] as u32
                && s[i] as u32 <= 90 {
                s[i] as u32 + 32
            } else {
                s[i] as u32 + 0
            }),
{
}

/// The white space characters are these twenty-five and no others.
pub proof fn white_space_is_these_characters(c: char)
    ensures
        is_white_space(c) <==> seq![
            0x09u32, 0x0a, 0x0b, 0x0c, 0x0d, 0x20, 0x85, 0xa0, 0x1680, 0x2000, 0x2001, 0x2002,
            0x2003, 0x2004, 0x2005, 0x2006, 0x2007, 0x2008, 0x2009, 0x200a, 0x2028, 0x2029, 0x202f,
            0x205f, 0x3000,
        ].contains(c as u32),
{
    let all = seq![
        0x09u32, 0x0a, 0x0b, 0x0c, 0x0d, 0x20, 0x85, 0xa0, 0x1680, 0x2000, 0x2001, 0x2002, 0x2003,
        0x2004, 0x2005, 0x2006, 0x2007, 0x2008, 0x2009, 0x200a, 0x2028, 0x2029, 0x202f, 0x205f,
        0x3000,
    ];
    let n = c as u32;
    if is_white_space(c) {
        let i: int = if n <= 0x0d {
            n - 0x09
        } else if n == 0x20 {
            5
        } else if n == 0x85 {
            6
        } else if n == 0xa0 {
            7
        } else if n == 0x1680 {
            8
        } else if n <= 0x200a {
            9 + n - 0x2000
        } else if n == 0x2028 {
            20
        } else if n == 0x2029 {
            21
        } else if n == 0x202f {
            22
        } else if n == 0x205f {
            23
        } else {
            24
        };
        assert(all[i] == n);
    }
}

/// Whether all characters are white space.
pub open spec fn is_blank(s: Seq<char>) -> bool {
    forall|i: int| 0 <= i < s.len() ==> is_white_space(#[trigger] s[i])
}

/// Whether a text neither starts nor ends with white space.
pub open spec fn is_tight(s: Seq<char>) -> bool {
    s.len() > 0 ==> !is_white_space(s.first()) && !is_white_space(s.last())
}

/// Taking leading white space off leaves the rest behind a blank.
proof fn leading_part(s: Seq<char>) -> (lead: Seq<char>)
    ensures
        s == lead + without_leading_white_space(s),
        is_blank(lead),
        without_leading_white_space(s).len() > 0 ==> !is_white_space(
            without_leading_white_space(s).first(),
        ),
    decreases s.len(),
{
    if s.len() > 0 && is_white_space(s.first()) {
        let rest = leading_part(s.drop_first());
        let lead = seq![s.first()] + rest;
        assert(s =~= seq![s.first()] + s.drop_first());
        assert(s =~= lead + without_leading_white_space(s));
        lead
    } else {
        assert(s =~= Seq::<char>::empty() + s);
        Seq::empty()
    }
}

/// Taking trailing white space off leaves the rest before a blank.
proof fn trailing_part(s: Seq<char>) -> (tail: Seq<char>)
    ensures
        s == without_trailing_white_space(s) + tail,
        is_blank(tail),
        without_trailing_white_space(s).len() > 0 ==> !is_white_space(
            without_trailing_white_space(s).last(),
        ),
    decreases s.len(),
{
    if s.len() > 0 && is_white_space(s.last()) {
        let rest = trailing_part(s.drop_last());
        let tail = rest.push(s.last());
        assert(s =~= s.drop_last().push(s.last()));
        assert(s =~= without_trailing_white_space(s) + tail);
        tail
    } else {
        assert(s =~= s + Seq::<char>::empty());
        Seq::empty()
    }
}

/// Trimming takes white space off both ends, all of it, and nothing else: the
/// text is a blank, the trimmed text and a blank, and the trimmed text neither
/// starts nor ends with white space.
pub proof fn trimming_takes_off_the_blanks(s: Seq<char>)
    ensures
        exists|lead: Seq<char>, tail: Seq<char>|
            is_blank(lead) && is_blank(tail) && s == #[trigger] (lead + trimmed(s) + tail),
        is_tight(trimmed(s)),
{
    let lead = leading_part(s);
    let inner = without_leading_white_space(s);
    let tail = trailing_part(inner);
    assert(s =~= lead + trimmed(s) + tail);
    if trimmed(s).len() > 0 {
        assert(trimmed(s).first() == inner.first());
    }
}

/// Whether all characters are slashes.
pub open spec fn is_slashes(s: Seq<char>) -> bool {
    forall|i: int| 0 <= i < s.len() ==> #[trigger] s[i] == '/'
}

/// A text is what is left without its trailing slashes and then slashes, and
/// what is left does not end in one.
pub proof fn all_trailing_slashes_go(s: Seq<char>)
    ensures
        without_trailing_slashes(s).is_prefix_of(s),
        is_slashes(s.skip(without_trailing_slashes(s).len() as int)),
        without_trailing_slashes(s).len() > 0 ==> without_trailing_slashes(s).last() != '/',
    decreases s.len(),
{
    let kept = without_trailing_slashes(s);
    if s.len() > 0 && s.last() == '/' {
        let shorter = s.drop_last();
        all_trailing_slashes_go(shorter);
        assert(s.subrange(0, kept.len() as int) =~= shorter.subrange(0, kept.len() as int));
        assert forall|i: int| 0 <= i < s.len() - kept.len() implies #[trigger] s.skip(
            kept.len() as int,
        )[i] == '/' by {
            if i < shorter.len() - kept.len() {
                assert(shorter.skip(kept.len() as int)[i] == s[kept.len() + i]);
            }
        }
    } else {
        assert(s.subrange(0, s.len() as int) =~= s);
    }
}

/// What stands before the first question mark is a start of the text without
/// any, and is all of the text or followed by one.
pub proof fn the_first_question_mark_ends_it(s: Seq<char>)
    ensures
        before_question_mark(s).is_prefix_of(s),
        !before_question_mark(s).contains('?'),
        before_question_mark(s).len() < s.len() ==> s[before_question_mark(s).len() as int] == '?',
    decreases s.len(),
{
    let kept = before_question_mark(s);
    if s.len() > 0 && s.first() != '?' {
        let rest = s.drop_first();
        the_first_question_mark_ends_it(rest);
        let n = before_question_mark(rest).len() as int;
        assert forall|i: int| 0 <= i < kept.len() implies #[trigger] kept[i] == s[i] && kept[i]
            != '?' by {
            if i > 0 {
                assert(before_question_mark(rest)[i - 1] == rest.subrange(0, n)[i - 1]);
                assert(before_question_mark(rest).contains(before_question_mark(rest)[i - 1]));
            }
        }
        if n < rest.len() {
            assert(rest[n] == s[n + 1]);
        }
    }
    assert(s.subrange(0, kept.len() as int) =~= kept);
}

/// The number that decimal digits stand for.
pub open spec fn decimal_value(s: Seq<char>) -> int
    decreases s.len(),
{
    if s.len() == 0 {
        0
    } else {
        10 * decimal_value(s.drop_last()) + (s.last() as u32 - 48)
    }
}

/// Decimal digits read back as the number: they are all digits, and none is a
/// leading zero.
pub proof fn decimal_reads_back(n: nat)
    ensures
        decimal_value(decimal(n)) == n,
        forall|i: int| 0 <= i < decimal(n).len() ==> '0' <= #[trigger] decimal(n)[i] <= '9',
        decimal(n).len() > 0,
        n > 0 ==> decimal(n).first() != '0',
        n == 0 ==> decimal(n) == seq!['0'],
    decreases n,
{
    if n >= 10 {
        decimal_reads_back(n / 10);
        assert(decimal(n).drop_last() =~= decimal(n / 10));
    } else {
        assert(decimal(n).drop_last() =~= Seq::empty());
        assert(decimal_value(Seq::<char>::empty()) == 0);
    }
}

/// An optional text is seen as it is, borrowed or owned.
pub proof fn optional_texts_are_seen(borrowed: Option<&str>, owned: Option<String>)
    ensures
        optional_text(borrowed) is Some <==> borrowed is Some,
        borrowed matches Some(t) ==> optional_text(borrowed) == Some(t@),
        optional_string(owned) is Some <==> owned is Some,
        owned matches Some(t) ==> optional_string(owned) == Some(t@),
{
}

} // verus!
