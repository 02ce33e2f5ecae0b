//! The `multipart/form-data` body of a batch request.

use crate::bytes::append_bytes;
use crate::bytes::append_text;
use crate::bytes::encoding_splits;
use crate::text::optional_text;
use vstd::prelude::*;
use vstd::utf8::encode_utf8;

verus! {

/// The line that opens a part.
pub open spec fn delimiter(boundary: Seq<char>) -> Seq<u8> {
    encode_utf8("--"@) + encode_utf8(boundary) + encode_utf8("\r\n"@)
}

/// The line that closes the body.
pub open spec fn closing_delimiter(boundary: Seq<char>) -> Seq<u8> {
    encode_utf8("--"@) + encode_utf8(boundary) + encode_utf8("--\r\n"@)
}

/// A part that holds the model's name.
pub open spec fn model_part(boundary: Seq<char>, model: Seq<char>) -> Seq<u8> {
    delimiter(boundary) + encode_utf8(
        "Content-Disposition: form-data; name=\"model\"\r\n\r\n"@,
    ) + encode_utf8(model) + encode_utf8("\r\n"@)
}

/// A part that holds the language, or nothing where there is none.
pub open spec fn language_part(boundary: Seq<char>, language: Option<Seq<char>>) -> Seq<u8> {
    match language {
        Some(code) => delimiter(boundary) + encode_utf8(
            "Content-Disposition: form-data; name=\"language\"\r\n\r\n"@,
        ) + encode_utf8(code) + encode_utf8("\r\n"@),
        None => Seq::empty(),
    }
}

/// The lines before the audio in the part that holds it.
pub open spec fn file_part_head(boundary: Seq<char>) -> Seq<u8> {
    delimiter(boundary) + encode_utf8(
        "Content-Disposition: form-data; name=\"file\"; filename=\"audio.wav\"\r\n"@,
    ) + encode_utf8("Content-Type: audio/wav\r\n\r\n"@)
}

/// Everything before the audio.
pub open spec fn multipart_head(
    boundary: Seq<char>,
    model: Seq<char>,
    language: Option<Seq<char>>,
) -> Seq<u8> {
    model_part(boundary, model) + language_part(boundary, language) + file_part_head(boundary)
}

/// The whole body: the model, the language where there is one, the audio.
pub open spec fn multipart_body(
    boundary: Seq<char>,
    model: Seq<char>,
    language: Option<Seq<char>>,
    wav: Seq<u8>,
) -> Seq<u8> {
    multipart_head(boundary, model, language) + wav + encode_utf8("\r\n"@) + closing_delimiter(
        boundary,
    )
}

/// Append the line that opens a part.
fn append_delimiter(body: &mut Vec<u8>, boundary: &str)
    ensures
        final(body)@ == old(body)@ + delimiter(boundary@),
{
    append_text(body, "--");
    append_text(body, boundary);
    append_text(body, "\r\n");
    proof {
        assert(body@ =~= old(body)@ + delimiter(boundary@));
    }
}

/// Build a `multipart/form-data` body with `model`, an optional `language`, and
/// `file` (audio.wav).
#[must_use]
pub fn build_multipart(boundary: &str, model: &str, language: Option<&str>, wav: &[u8]) -> (r: Vec<
    u8,
>)
    ensures
        r@ == multipart_body(boundary@, model@, optional_text(language), wav@),
{
    let mut body: Vec<u8> = Vec::new();
    append_delimiter(&mut body, boundary);
    append_text(&mut body, "Content-Disposition: form-data; name=\"model\"\r\n\r\n");
    append_text(&mut body, model);
    append_text(&mut body, "\r\n");
    proof {
        assert(body@ =~= model_part(boundary@, model@));
    }
    if let Some(lang) = language {
        append_delimiter(&mut body, boundary);
        append_text(&mut body, "Content-Disposition: form-data; name=\"language\"\r\n\r\n");
        append_text(&mut body, lang);
        append_text(&mut body, "\r\n");
    }
    proof {
        assert(body@ =~= model_part(boundary@, model@) + language_part(
            boundary@,
            optional_text(language),
        ));
    }
    append_delimiter(&mut body, boundary);
    append_text(
        &mut body,
        "Content-Disposition: form-data; name=\"file\"; filename=\"audio.wav\"\r\n",
    );
    append_text(&mut body, "Content-Type: audio/wav\r\n\r\n");
    proof {
        assert(body@ =~= multipart_head(boundary@, model@, optional_text(language)));
    }
    append_bytes(&mut body, wav);
    append_text(&mut body, "\r\n");
    append_text(&mut body, "--");
    append_text(&mut body, boundary);
    append_text(&mut body, "--\r\n");
    proof {
        assert(body@ =~= multipart_body(boundary@, model@, optional_text(language), wav@));
    }
    body
}

/// Every body starts with the delimiter and ends with the closing one.
pub proof fn multipart_is_delimited(
    boundary: Seq<char>,
    model: Seq<char>,
    language: Option<Seq<char>>,
    wav: Seq<u8>,
)
    ensures
        delimiter(boundary).is_prefix_of(multipart_body(boundary, model, language, wav)),
        closing_delimiter(boundary).is_suffix_of(multipart_body(boundary, model, language, wav)),
{
    let body = multipart_body(boundary, model, language, wav);
    let open = delimiter(boundary);
    let close = closing_delimiter(boundary);
    assert(body.subrange(0, open.len() as int) =~= open);
    assert(body.subrange(body.len() - close.len(), body.len() as int) =~= close);
}

/// The audio stands in the body byte for byte, right behind the head, whatever
/// it holds.
pub proof fn multipart_carries_audio(
    boundary: Seq<char>,
    model: Seq<char>,
    language: Option<Seq<char>>,
    wav: Seq<u8>,
)
    ensures
        ({
            let start = multipart_head(boundary, model, language).len() as int;
            multipart_body(boundary, model, language, wav).subrange(start, start + wav.len()) == wav
        }),
{
    let start = multipart_head(boundary, model, language).len() as int;
    assert(multipart_body(boundary, model, language, wav).subrange(start, start + wav.len())
        =~= wav);
}

/// A language adds its part and changes nothing else.
pub proof fn language_only_adds_a_part(
    boundary: Seq<char>,
    model: Seq<char>,
    code: Seq<char>,
    wav: Seq<u8>,
)
    ensures
        ({
            let at = model_part(boundary, model).len() as int;
            let added = language_part(boundary, Some(code)).len() as int;
            let with = multipart_body(boundary, model, Some(code), wav);
            &&& added > 0
            &&& with.subrange(at, at + added) == language_part(boundary, Some(code))
            &&& with.take(at) + with.skip(at + added) == multipart_body(boundary, model, None, wav)
        }),
{
    let at = model_part(boundary, model).len() as int;
    let added = language_part(boundary, Some(code)).len() as int;
    let with = multipart_body(boundary, model, Some(code), wav);
    reveal_strlit("--");
    vstd::utf8::is_ascii_chars_encode_utf8("--"@);
    assert(with.subrange(at, at + added) =~= language_part(boundary, Some(code)));
    assert(with.take(at) + with.skip(at + added) =~= multipart_body(boundary, model, None, wav));
}

/// The bytes of a form: each part behind a line with the boundary, its head and
/// its value followed by a line break, and a closing line.
pub open spec fn form_bytes(mark: Seq<u8>, parts: Seq<(Seq<u8>, Seq<u8>)>) -> Seq<u8>
    decreases parts.len(),
{
    if parts.len() == 0 {
        seq![45u8, 45] + mark + seq![45u8, 45, 13, 10]
    } else {
        seq![45u8, 45] + mark + seq![13u8, 10] + parts.first().0 + parts.first().1 + seq![13u8, 10]
            + form_bytes(mark, parts.drop_first())
    }
}

/// The head of a form field's part, which ends in an empty line.
pub open spec fn field_head(name: Seq<char>) -> Seq<u8> {
    encode_utf8("Content-Disposition: form-data; name=\""@) + encode_utf8(name) + encode_utf8(
        "\"\r\n\r\n"@,
    )
}

/// The head of the audio's part.
pub open spec fn audio_head() -> Seq<u8> {
    encode_utf8(
        "Content-Disposition: form-data; name=\"file\"; filename=\"audio.wav\"\r\n"@,
    ) + encode_utf8("Content-Type: audio/wav\r\n\r\n"@)
}

/// The short texts that lines are made of.
proof fn line_bytes()
    ensures
        encode_utf8("\r\n"@) == seq![13u8, 10],
        encode_utf8("--"@) == seq![45u8, 45],
        encode_utf8("--\r\n"@) == seq![45u8, 45, 13, 10],
{
    reveal_strlit("\r\n");
    reveal_strlit("--");
    reveal_strlit("--\r\n");
    vstd::utf8::is_ascii_chars_encode_utf8("\r\n"@);
    vstd::utf8::is_ascii_chars_encode_utf8("--"@);
    vstd::utf8::is_ascii_chars_encode_utf8("--\r\n"@);
    assert(encode_utf8("\r\n"@) =~= seq![13u8, 10]);
    assert(encode_utf8("--"@) =~= seq![45u8, 45]);
    assert(encode_utf8("--\r\n"@) =~= seq![45u8, 45, 13, 10]);
}

/// The heads of the fields, written in one piece and in three.
proof fn field_heads()
    ensures
        field_head("model"@) == encode_utf8(
            "Content-Disposition: form-data; name=\"model\"\r\n\r\n"@,
        ),
        field_head("language"@) == encode_utf8(
            "Content-Disposition: form-data; name=\"language\"\r\n\r\n"@,
        ),
{
    reveal_strlit("Content-Disposition: form-data; name=\"");
    reveal_strlit("model");
    reveal_strlit("language");
    reveal_strlit("\"\r\n\r\n");
    reveal_strlit("Content-Disposition: form-data; name=\"model\"\r\n\r\n");
    reveal_strlit("Content-Disposition: form-data; name=\"language\"\r\n\r\n");
    let start = "Content-Disposition: form-data; name=\""@;
    let end = "\"\r\n\r\n"@;
    encoding_splits(start, "model"@);
    encoding_splits(start + "model"@, end);
    encoding_splits(start, "language"@);
    encoding_splits(start + "language"@, end);
    assert(start + "model"@ + end
        =~= "Content-Disposition: form-data; name=\"model\"\r\n\r\n"@);
    assert(start + "language"@ + end
        =~= "Content-Disposition: form-data; name=\"language\"\r\n\r\n"@);
}

/// The body is a form of two or three parts: the model, the language where there
/// is one, and the audio, each with the value that was passed in.
pub proof fn the_body_is_a_form(
    boundary: Seq<char>,
    model: Seq<char>,
    language: Option<Seq<char>>,
    wav: Seq<u8>,
)
    ensures
        multipart_body(boundary, model, language, wav) == form_bytes(
            encode_utf8(boundary),
            match language {
                Some(code) => seq![
                    (field_head("model"@), encode_utf8(model)),
                    (field_head("language"@), encode_utf8(code)),
                    (audio_head(), wav),
                ],
                None => seq![
                    (field_head("model"@), encode_utf8(model)),
                    (audio_head(), wav),
                ],
            },
        ),
{
    line_bytes();
    field_heads();
    let mark = encode_utf8(boundary);
    let none: Seq<(Seq<u8>, Seq<u8>)> = Seq::empty();
    let a = (field_head("model"@), encode_utf8(model));
    let c = (audio_head(), wav);
    let audio = delimiter(boundary) + audio_head() + wav + encode_utf8("\r\n"@);
    let head = file_part_head(boundary);
    let closing = closing_delimiter(boundary);
    assert(closing == form_bytes(mark, none));
    assert(seq![c].drop_first() =~= none);
    assert(form_bytes(mark, seq![c]) == audio + closing);
    assert(delimiter(boundary) + audio_head() =~= head);
    let m = model_part(boundary, model);
    let l = language_part(boundary, language);
    joins(m, l, head, wav, encode_utf8("\r\n"@), closing);
    match language {
        Some(code) => {
            let b = (field_head("language"@), encode_utf8(code));
            assert(seq![b, c].drop_first() =~= seq![c]);
            assert(form_bytes(mark, seq![b, c]) == l + form_bytes(mark, seq![c]));
            assert(seq![a, b, c].drop_first() =~= seq![b, c]);
            assert(form_bytes(mark, seq![a, b, c]) == m + form_bytes(mark, seq![b, c]));
        },
        None => {
            assert(l + (audio + closing) =~= audio + closing);
            assert(seq![a, c].drop_first() =~= seq![c]);
            assert(form_bytes(mark, seq![a, c]) == m + form_bytes(mark, seq![c]));
        },
    }
}

/// Joining from the front and joining from the back are the same.
proof fn joins(
    a: Seq<u8>,
    b: Seq<u8>,
    c: Seq<u8>,
    d: Seq<u8>,
    e: Seq<u8>,
    f: Seq<u8>,
)
    ensures
        a + b + c + d + e + f == a + (b + (c + d + e + f)),
{
    assert(a + b + c + d + e + f =~= a + (b + (c + d + e + f)));
}

/// Whether bytes stand in others at an index.
pub open spec fn stands_at(s: Seq<u8>, wanted: Seq<u8>, i: int) -> bool {
    0 <= i && i + wanted.len() <= s.len() && s.subrange(i, i + wanted.len()) == wanted
}

/// A line break and the boundary, which end the value of a part.
pub open spec fn value_end(boundary: Seq<char>) -> Seq<u8> {
    seq![13u8, 10, 45, 45] + encode_utf8(boundary)
}

/// A reader that knows where a value starts finds its end: the first line with
/// the boundary behind it. A value that such a line stands in is left out.
pub proof fn values_end_at_the_boundary(boundary: Seq<char>, value: Seq<u8>, rest: Seq<u8>)
    requires
        forall|i: int|
            0 <= i < value.len() ==> !#[trigger] stands_at(
                value + value_end(boundary),
                value_end(boundary),
                i,
            ),
    ensures
        stands_at(value + value_end(boundary) + rest, value_end(boundary), value.len() as int),
        forall|i: int|
            0 <= i < value.len() ==> !#[trigger] stands_at(
                value + value_end(boundary) + rest,
                value_end(boundary),
                i,
            ),
{
    let end = value_end(boundary);
    let short = value + end;
    let long = short + rest;
    let n = value.len() as int;
    assert(long.subrange(n, n + end.len()) =~= end);
    assert forall|i: int| 0 <= i < value.len() implies !#[trigger] stands_at(long, end, i) by {
        assert(!stands_at(short, end, i));
        assert(long.subrange(i, i + end.len()) =~= short.subrange(i, i + end.len()));
    }
}

/// Whatever the audio is, the body ends with it, a line break, and the closing
/// line: nothing else follows the last byte of the audio.
pub proof fn the_audio_is_closed_by_a_line(
    boundary: Seq<char>,
    model: Seq<char>,
    language: Option<Seq<char>>,
    wav: Seq<u8>,
)
    ensures
        ({
            let closing = value_end(boundary) + seq![45u8, 45, 13, 10];
            let body = multipart_body(boundary, model, language, wav);
            &&& body.len() >= wav.len() + closing.len()
            &&& body.skip(body.len() - closing.len()) == closing
            &&& body.skip(body.len() - closing.len() - wav.len()).take(wav.len() as int) == wav
        }),
{
    line_bytes();
    let closing = value_end(boundary) + seq![45u8, 45, 13, 10];
    let body = multipart_body(boundary, model, language, wav);
    let head = multipart_head(boundary, model, language);
    assert(body =~= head + wav + closing);
    assert(body.skip(body.len() - closing.len()) =~= closing);
    assert(body.skip(body.len() - closing.len() - wav.len()).take(wav.len() as int) =~= wav);
}

} // verus!
