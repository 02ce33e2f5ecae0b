//! The JSON frames and documents that the backend exchanges with its consumer
//! and with Mistral.

use crate::armor::base64_is_lossless;
use crate::armor::base64_len;
use crate::armor::base64_text;
use crate::armor::encode_base64;
use crate::json::bytes_contents;
use crate::json::holds;
use crate::json::comes_before_at;
use crate::json::field_texts;
use crate::json::keys_ascend;
use crate::json::member;
use crate::json::members_found;
use crate::json::object_as_text;
use crate::json::object_text;
use crate::json::parse_bytes;
use crate::json::parse_text;
use crate::json::text_contents;
use crate::json::text_member;
use crate::json::text_object;
use crate::json::text_under;
use crate::json::unsigned_member;
use crate::json::unsigned_under;
use crate::json::Json;
use crate::json::JsonNumber;
use crate::text::optional_string;
use crate::text::optional_text;
use crate::text::same_text;
use vstd::prelude::*;
use vstd::string::StringExecFns;

verus! {

/// The sample rate of audio for which none is named.
pub const DEFAULT_SAMPLE_RATE: u32 = 16000;

/// The fields of an `input_audio.append` frame.
pub open spec fn audio_append_fields(pcm: Seq<u8>) -> Seq<(Seq<char>, Seq<char>)> {
    seq![("audio"@, base64_text(pcm)), ("type"@, "input_audio.append"@)]
}

/// The fields of a `preview` frame.
pub open spec fn preview_fields(text: Seq<char>) -> Seq<(Seq<char>, Seq<char>)> {
    seq![("text"@, text), ("type"@, "preview"@)]
}

/// The fields of a `done` frame.
pub open spec fn done_fields(text: Seq<char>) -> Seq<(Seq<char>, Seq<char>)> {
    seq![("transcription"@, text), ("type"@, "done"@)]
}

/// The fields of an `error` frame.
pub open spec fn error_fields(message: Seq<char>) -> Seq<(Seq<char>, Seq<char>)> {
    seq![("message"@, message), ("type"@, "error"@)]
}

/// The `type` of a document, if it has one.
pub open spec fn kind_of(document: Option<Json>) -> Option<Seq<char>> {
    match document {
        Some(d) => text_member(d, "type"@),
        None => None,
    }
}

/// The sample rate that is asked for: 16000 unless a rate is named that fits in
/// 32 bits.
pub open spec fn requested_rate(sample_rate: Option<u64>) -> u32 {
    match sample_rate {
        Some(n) => if n <= u32::MAX {
            n as u32
        } else {
            DEFAULT_SAMPLE_RATE
        },
        None => DEFAULT_SAMPLE_RATE,
    }
}

/// What a frame with these fields starts: a session at a sample rate and in a
/// language, if it is a `start` frame.
pub open spec fn started(
    kind: Option<Seq<char>>,
    sample_rate: Option<u64>,
    language: Option<Seq<char>>,
) -> Option<(u32, Option<Seq<char>>)> {
    if kind == Some("start"@) {
        Some((requested_rate(sample_rate), language))
    } else {
        None
    }
}

/// What a document starts.
pub open spec fn start_of(document: Option<Json>) -> Option<(u32, Option<Seq<char>>)> {
    match document {
        Some(d) => started(
            text_member(d, "type"@),
            unsigned_member(d, "sample_rate"@),
            text_member(d, "language"@),
        ),
        None => None,
    }
}

/// Whether a document is a `stop` frame.
pub open spec fn is_stop_frame(document: Option<Json>) -> bool {
    kind_of(document) == Some("stop"@)
}

/// The transcript that a batch response holds, or why it holds none.
pub open spec fn transcript_of(document: Result<Json, Seq<char>>) -> Result<Seq<char>, Seq<char>> {
    match document {
        Ok(d) => match text_member(d, "text"@) {
            Some(text) => Ok(text),
            None => Err("no_text_field"@),
        },
        Err(message) => Err("parse: "@ + message),
    }
}

/// The keys of every frame stand in ascending order.
proof fn frame_keys_ascend(text: Seq<char>, pcm: Seq<u8>)
    ensures
        keys_ascend(audio_append_fields(pcm)),
        keys_ascend(preview_fields(text)),
        keys_ascend(done_fields(text)),
        keys_ascend(error_fields(text)),
{
    reveal_strlit("audio");
    reveal_strlit("message");
    reveal_strlit("text");
    reveal_strlit("transcription");
    reveal_strlit("type");
    comes_before_at("audio"@, "type"@, 0);
    comes_before_at("message"@, "type"@, 0);
    comes_before_at("text"@, "type"@, 1);
    comes_before_at("transcription"@, "type"@, 1);
}

/// `input_audio.append` payload carrying base64-standard PCM (s16le mono 16 kHz,
/// the format Mistral's realtime transcription expects).
#[must_use]
pub fn audio_append_json(pcm: &[u8]) -> (r: String)
    requires
        base64_len(pcm@.len()) <= isize::MAX,
    ensures
        r@ == object_text(audio_append_fields(pcm@)),
        text_contents(r@) == Some(text_object(audio_append_fields(pcm@))),
{
    let audio = encode_base64(pcm);
    let fields: Vec<(&str, &str)> = vec![
        ("audio", audio.as_str()),
        ("type", "input_audio.append"),
    ];
    proof {
        frame_keys_ascend(Seq::empty(), pcm@);
        assert(field_texts(fields@) =~= audio_append_fields(pcm@));
    }
    object_as_text(&fields)
}

/// Consumer `preview` frame (incremental transcript).
#[must_use]
pub fn preview_json(text: &str) -> (r: String)
    ensures
        r@ == object_text(preview_fields(text@)),
        text_contents(r@) == Some(text_object(preview_fields(text@))),
{
    let fields: Vec<(&str, &str)> = vec![("text", text), ("type", "preview")];
    proof {
        frame_keys_ascend(text@, Seq::empty());
        assert(field_texts(fields@) =~= preview_fields(text@));
    }
    object_as_text(&fields)
}

/// Consumer `done` frame (final transcript).
#[must_use]
pub fn done_json(text: &str) -> (r: String)
    ensures
        r@ == object_text(done_fields(text@)),
        text_contents(r@) == Some(text_object(done_fields(text@))),
{
    let fields: Vec<(&str, &str)> = vec![("transcription", text), ("type", "done")];
    proof {
        frame_keys_ascend(text@, Seq::empty());
        assert(field_texts(fields@) =~= done_fields(text@));
    }
    object_as_text(&fields)
}

/// Consumer `error` frame.
#[must_use]
pub fn error_json(msg: &str) -> (r: String)
    ensures
        r@ == object_text(error_fields(msg@)),
        text_contents(r@) == Some(text_object(error_fields(msg@))),
{
    let fields: Vec<(&str, &str)> = vec![("message", msg), ("type", "error")];
    proof {
        frame_keys_ascend(msg@, Seq::empty());
        assert(field_texts(fields@) =~= error_fields(msg@));
    }
    object_as_text(&fields)
}

/// Whether an optional text is there and is `want`.
pub fn is_text(text: Option<&str>, want: &str) -> (r: bool)
    ensures
        r == (optional_text(text) == Some(want@)),
{
    match text {
        Some(t) => same_text(t, want),
        None => false,
    }
}

/// An optional owned text, borrowed.
pub(crate) fn borrowed(text: &Option<String>) -> (r: Option<&str>)
    ensures
        optional_text(r) == optional_string(*text),
{
    match text {
        Some(t) => Some(t.as_str()),
        None => None,
    }
}

/// An owned copy of an optional text.
pub(crate) fn owned(text: Option<&str>) -> (r: Option<String>)
    ensures
        optional_string(r) == optional_text(text),
{
    match text {
        Some(t) => Some(t.to_string()),
        None => None,
    }
}

/// The sample rate that is asked for.
pub fn rate_or_default(sample_rate: Option<u64>) -> (r: u32)
    ensures
        r == requested_rate(sample_rate),
{
    match sample_rate {
        Some(n) => if n <= 0xffff_ffff {
            n as u32
        } else {
            DEFAULT_SAMPLE_RATE
        },
        None => DEFAULT_SAMPLE_RATE,
    }
}

/// What a frame with these fields starts. Requires `type == "start"`;
/// `sample_rate` defaults to 16000; `language` is optional.
///
/// # Errors
/// Returns an error string when `type != "start"`.
pub fn start_frame(kind: Option<&str>, sample_rate: Option<u64>, language: Option<&str>) -> (r:
    Result<(u32, Option<String>), String>)
    ensures
        match r {
            Ok((rate, lang)) => started(
                optional_text(kind),
                sample_rate,
                optional_text(language),
            ) == Some((rate, optional_string(lang))),
            Err(e) => started(
                optional_text(kind),
                sample_rate,
                optional_text(language),
            ) is None && e@ == "invalid start frame"@,
        },
{
    if !is_text(kind, "start") {
        return Err("invalid start frame".to_string());
    }
    Ok((rate_or_default(sample_rate), owned(language)))
}

/// Parse the consumer's `start` frame: `{"type":"start","sample_rate":N,
/// "language":"xx"}`. Requires `type == "start"`; `sample_rate` defaults to
/// 16000; `language` is optional.
///
/// # Errors
/// Returns an error string when the JSON is invalid or `type != "start"`.
pub fn parse_start(s: &str) -> (r: Result<(u32, Option<String>), String>)
    ensures
        match r {
            Ok((rate, lang)) => start_of(text_contents(s@)) == Some((rate, optional_string(lang))),
            Err(e) => start_of(text_contents(s@)) is None && e@ == "invalid start frame"@,
        },
{
    match parse_text(s) {
        Some(v) => start_frame(
            text_under(&v, "type"),
            unsigned_under(&v, "sample_rate"),
            text_under(&v, "language"),
        ),
        None => Err("invalid start frame".to_string()),
    }
}

/// `true` if `s` is a JSON object with `type == "stop"`.
#[must_use]
pub fn is_stop(s: &str) -> (r: bool)
    ensures
        r == is_stop_frame(text_contents(s@)),
{
    match parse_text(s) {
        Some(v) => is_text(text_under(&v, "type"), "stop"),
        None => false,
    }
}

/// The `type` field of a JSON event, if present.
pub fn event_type(s: &str) -> (r: Option<String>)
    ensures
        optional_string(r) == kind_of(text_contents(s@)),
{
    match parse_text(s) {
        Some(v) => owned(text_under(&v, "type")),
        None => None,
    }
}

/// The transcript of a batch response whose `text` field is `text`.
///
/// # Errors
/// Returns an error string where there is none.
pub fn transcript_field(text: Option<&str>) -> (r: Result<String, String>)
    ensures
        match r {
            Ok(t) => optional_text(text) == Some(t@),
            Err(e) => text is None && e@ == "no_text_field"@,
        },
{
    match text {
        Some(t) => Ok(t.to_string()),
        None => Err("no_text_field".to_string()),
    }
}

/// Extract the transcription text from a Mistral batch-API response body.
///
/// # Errors
/// Returns an error string if `bytes` is not JSON or lacks a string `text`
/// field.
pub fn parse_transcript(bytes: &[u8]) -> (r: Result<String, String>)
    ensures
        match r {
            Ok(t) => transcript_of(bytes_contents(bytes@)) == Ok::<Seq<char>, Seq<char>>(t@),
            Err(e) => transcript_of(bytes_contents(bytes@)) == Err::<Seq<char>, Seq<char>>(e@),
        },
        forall|document: Json, s: Seq<char>|
            bytes_contents(bytes@) == Ok::<Json, Seq<char>>(document) && #[trigger] holds(
                document,
                "text"@,
                Json::Text(s),
            ) ==> r is Ok && r->Ok_0@ == s,
{
    match parse_bytes(bytes) {
        Ok(v) => transcript_field(text_under(&v, "text")),
        Err(message) => {
            let mut e = "parse: ".to_string();
            e.append(message.as_str());
            Err(e)
        },
    }
}

/// No frame both starts and stops a session.
pub proof fn stop_is_no_start(document: Option<Json>)
    ensures
        is_stop_frame(document) ==> start_of(document) is None,
{
    reveal_strlit("start");
    reveal_strlit("stop");
    assert("start"@.len() != "stop"@.len());
}

/// Every frame that is written reads back as what it is: its `type`, and the
/// text that it was made of, whatever characters that holds.
pub proof fn frames_read_back(text: Seq<char>, pcm: Seq<u8>)
    ensures
        kind_of(Some(text_object(preview_fields(text)))) == Some("preview"@),
        text_member(text_object(preview_fields(text)), "text"@) == Some(text),
        kind_of(Some(text_object(done_fields(text)))) == Some("done"@),
        text_member(text_object(done_fields(text)), "transcription"@) == Some(text),
        kind_of(Some(text_object(error_fields(text)))) == Some("error"@),
        text_member(text_object(error_fields(text)), "message"@) == Some(text),
        kind_of(Some(text_object(audio_append_fields(pcm)))) == Some("input_audio.append"@),
        text_member(text_object(audio_append_fields(pcm)), "audio"@) == Some(base64_text(pcm)),
{
    reveal_strlit("type");
    reveal_strlit("text");
    reveal_strlit("transcription");
    reveal_strlit("message");
    reveal_strlit("audio");
    assert("text"@[1] != "type"@[1]);
    assert("transcription"@[1] != "type"@[1]);
    assert("message"@[0] != "type"@[0]);
    assert("audio"@[0] != "type"@[0]);
    let a = preview_fields(text);
    let b = done_fields(text);
    let c = error_fields(text);
    let d = audio_append_fields(pcm);
    members_found(a);
    members_found(b);
    members_found(c);
    members_found(d);
    assert(a[0].0 == "text"@ && a[1].0 == "type"@);
    assert(b[0].0 == "transcription"@ && b[1].0 == "type"@);
    assert(c[0].0 == "message"@ && c[1].0 == "type"@);
    assert(d[0].0 == "audio"@ && d[1].0 == "type"@);
}

/// No audio is lost on the way into a frame: frames that read alike carry the
/// same bytes.
pub proof fn audio_frames_are_lossless(a: Seq<u8>, b: Seq<u8>)
    requires
        text_object(audio_append_fields(a)) == text_object(audio_append_fields(b)),
    ensures
        a == b,
{
    frames_read_back(Seq::empty(), a);
    frames_read_back(Seq::empty(), b);
    base64_is_lossless(a, b);
}

/// The transcript of a response is the string under `text`, all its characters
/// unchanged; a response without one gives `no_text_field`, and bytes that are
/// no document give the parser's message.
pub proof fn the_transcript_is_the_text(document: Json, s: Seq<char>, message: Seq<char>)
    ensures
        holds(document, "text"@, Json::Text(s)) ==> transcript_of(Ok(document)) == Ok::<
            Seq<char>,
            Seq<char>,
        >(s),
        (forall|t: Seq<char>| !#[trigger] holds(document, "text"@, Json::Text(t)))
            ==> transcript_of(Ok(document)) == Err::<Seq<char>, Seq<char>>("no_text_field"@),
        transcript_of(Err(message)) == Err::<Seq<char>, Seq<char>>("parse: "@ + message),
{
    if transcript_of(Ok(document)) is Ok {
        assert(holds(document, "text"@, Json::Text(transcript_of(Ok(document))->Ok_0)));
    }
}

/// The `type` of a document is the string under `type`.
pub proof fn the_kind_is_the_type(document: Json, s: Seq<char>)
    ensures
        kind_of(Some(document)) == Some(s) <==> holds(document, "type"@, Json::Text(s)),
        kind_of(None) is None,
        is_stop_frame(Some(document)) <==> holds(document, "type"@, Json::Text("stop"@)),
        !is_stop_frame(None),
{
}

/// A rate that fits in 32 bits is the rate; any other, or none, is 16000.
pub proof fn a_rate_that_fits_is_the_rate(n: u64)
    ensures
        n <= 0xffff_ffff ==> requested_rate(Some(n)) == n,
        n > 0xffff_ffff ==> requested_rate(Some(n)) == 16000,
        requested_rate(None) == 16000,
{
}

/// A document starts a session exactly where its `type` is `start`. The session
/// then has the unsigned integer under `sample_rate`, where that fits, and else
/// 16000, and the string under `language`, where there is one.
pub proof fn a_start_frame_is_read_whole(
    document: Json,
    rate: JsonNumber,
    n: u64,
    language: Seq<char>,
)
    ensures
        start_of(Some(document)) is Some <==> holds(document, "type"@, Json::Text("start"@)),
        start_of(None) is None,
        start_of(Some(document)) matches Some((r, l)) ==> {
            &&& holds(document, "sample_rate"@, Json::Number(rate)) && rate.unsigned == Some(n) && n
                <= 0xffff_ffff ==> r == n
            &&& holds(document, "sample_rate"@, Json::Number(rate)) && rate.unsigned == Some(n) && n
                > 0xffff_ffff ==> r == 16000
            &&& holds(document, "sample_rate"@, Json::Number(rate)) && rate.unsigned is None ==> r
                == 16000
            &&& (forall|other: JsonNumber|
                !#[trigger] holds(document, "sample_rate"@, Json::Number(other))) ==> r == 16000
            &&& l == Some(language) <==> holds(document, "language"@, Json::Text(language))
        },
{
    if start_of(Some(document)) is Some && (forall|r: JsonNumber|
        !#[trigger] holds(document, "sample_rate"@, Json::Number(r))) {
        if unsigned_member(document, "sample_rate"@) is Some {
            let r = member(document, "sample_rate"@)->0->Number_0;
            assert(holds(document, "sample_rate"@, Json::Number(r)));
        }
    }
}

/// A frame says nothing but its `type` and its one content.
pub proof fn frames_say_nothing_else(text: Seq<char>, pcm: Seq<u8>)
    ensures
        preview_fields(text).len() == 2,
        done_fields(text).len() == 2,
        error_fields(text).len() == 2,
        audio_append_fields(pcm).len() == 2,
{
}

} // verus!
