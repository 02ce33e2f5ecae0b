//! The batch `/v1` contract: routing, and the course of a transcription.
//!
//! A transcription alternates between work outside (reading the body, turning
//! doubles into samples, calling Mistral) and decisions. The decisions are
//! here: [`begin_transcription`] and [`advance_transcription`] say what to do
//! next, and [`transcription_step`] says what they decide.

use crate::bytes::append_text;
use crate::frames::borrowed;
use crate::frames::owned;
use crate::frames::parse_transcript;
use crate::frames::rate_or_default;
use crate::frames::requested_rate;
use crate::frames::transcript_of;
use crate::headers::bearer;
use crate::headers::bearer_header;
use crate::headers::decode_lossy;
use crate::headers::header_list;
use crate::headers::lossy_text;
use crate::headers::or_default;
use crate::headers::settings;
use crate::headers::settings_in;
use crate::headers::text_or;
use crate::headers::Settings;
use crate::headers::SettingsModel;
use crate::json::bytes_contents;
use crate::json::comes_before_at;
use crate::json::contents;
use crate::json::double_bits;
use crate::json::double_bits_of;
use crate::json::field_texts;
use crate::json::holds;
use crate::json::keys_ascend;
use crate::json::member;
use crate::json::member_of;
use crate::json::object_as_bytes;
use crate::json::object_text;
use crate::json::parse_bytes;
use crate::json::text_member;
use crate::json::text_object;
use crate::json::text_under;
use crate::json::unsigned_member;
use crate::json::unsigned_under;
use crate::json::Json;
use crate::multipart::build_multipart;
use crate::multipart::multipart_body;
use crate::text::before_query;
use crate::text::before_question_mark;
use crate::text::decimal;
use crate::text::decimal_text;
use crate::text::optional_string;
use crate::text::optional_text;
use crate::text::same_text;
use crate::url::authority;
use crate::url::is_plain;
use crate::url::parse_base;
use crate::wav::encode_wav;
use crate::wav::wav_file;
use vstd::pervasive::unreached;
use vstd::prelude::*;
use vstd::string::StringExecFns;
use vstd::utf8::encode_utf8;

verus! {

/// The model of a batch request that names none.
pub const BATCH_MODEL: &'static str = "voxtral-mini-latest";

/// What separates the parts of the body of a batch request.
pub const BOUNDARY: &'static str = "----superstt7MA4YWxkTrZu0gW";

/// Where batch requests go.
pub const TRANSCRIPTIONS_PATH: &'static str = "/v1/audio/transcriptions";

/// What the user is told where the API key is missing.
pub const MISSING_KEY_DETAIL: &'static str =
    "Mistral API key not set. Add it in Settings \u{2192} Models \u{2192} Mistral.";

/// A request method, as far as the backend tells methods apart.
pub enum Method {
    Get,
    Post,
    Other,
}

/// An answer to the daemon: a status and a JSON body.
pub struct Response {
    pub status: u16,
    pub body: Vec<u8>,
}

/// An answer as the fields of its JSON body.
pub struct Reply {
    pub status: u16,
    pub fields: Seq<(Seq<char>, Seq<char>)>,
}

/// Whether a response is an answer, written as JSON, and reads back as such.
pub open spec fn writes(response: Response, reply: Reply) -> bool {
    &&& response.status == reply.status
    &&& response.body@ == encode_utf8(object_text(reply.fields))
    &&& bytes_contents(response.body@) == Ok::<Json, Seq<char>>(text_object(reply.fields))
}

/// An answer that says that something went wrong.
pub open spec fn error_reply(status: u16, message: Seq<char>) -> Reply {
    Reply { status, fields: seq![("message"@, message), ("status"@, "error"@)] }
}

/// An answer with a message that all is well.
pub open spec fn message_reply(status: u16, message: Seq<char>) -> Reply {
    Reply { status, fields: seq![("message"@, message), ("status"@, "success"@)] }
}

/// The answer to a status request: a cloud backend is ready at once.
pub open spec fn ready_reply() -> Reply {
    Reply {
        status: 200,
        fields: seq![("device"@, "cpu"@), ("state"@, "ready"@), ("status"@, "success"@)],
    }
}

/// The answer where something went wrong that has a detail.
pub open spec fn detailed_reply(status: u16, message: Seq<char>, detail: Seq<char>) -> Reply {
    Reply {
        status,
        fields: seq![("detail"@, detail), ("message"@, message), ("status"@, "error"@)],
    }
}

/// The answer with a transcript.
pub open spec fn transcript_reply(text: Seq<char>) -> Reply {
    Reply { status: 200, fields: seq![("status"@, "success"@), ("transcription"@, text)] }
}

/// The answer where the API key is missing.
pub open spec fn missing_key_reply() -> Reply {
    detailed_reply(400, "missing_secret_mistral_api_key"@, MISSING_KEY_DETAIL@)
}

/// The answer that a call of Mistral leads to.
pub open spec fn call_reply(outcome: Result<Seq<char>, Seq<char>>) -> Reply {
    match outcome {
        Ok(text) => transcript_reply(text),
        Err(detail) => detailed_reply(502, "upstream_error"@, detail),
    }
}

/// The keys of every answer stand in ascending order.
proof fn reply_keys_ascend(status: u16, a: Seq<char>, b: Seq<char>)
    ensures
        keys_ascend(error_reply(status, a).fields),
        keys_ascend(message_reply(status, a).fields),
        keys_ascend(ready_reply().fields),
        keys_ascend(detailed_reply(status, a, b).fields),
        keys_ascend(transcript_reply(a).fields),
{
    reveal_strlit("detail");
    reveal_strlit("device");
    reveal_strlit("message");
    reveal_strlit("state");
    reveal_strlit("status");
    reveal_strlit("transcription");
    comes_before_at("detail"@, "message"@, 0);
    comes_before_at("detail"@, "status"@, 0);
    comes_before_at("device"@, "state"@, 0);
    comes_before_at("device"@, "status"@, 0);
    comes_before_at("message"@, "status"@, 0);
    comes_before_at("state"@, "status"@, 4);
    comes_before_at("status"@, "transcription"@, 0);
}

/// An answer that says that something went wrong.
pub fn err(status: u16, message: &str) -> (r: Response)
    ensures
        writes(r, error_reply(status, message@)),
{
    let fields: Vec<(&str, &str)> = vec![("message", message), ("status", "error")];
    proof {
        reply_keys_ascend(status, message@, message@);
        assert(field_texts(fields@) =~= error_reply(status, message@).fields);
    }
    Response { status, body: object_as_bytes(&fields) }
}

/// An answer with a message that all is well.
fn succeeded(status: u16, message: &str) -> (r: Response)
    ensures
        writes(r, message_reply(status, message@)),
{
    let fields: Vec<(&str, &str)> = vec![("message", message), ("status", "success")];
    proof {
        reply_keys_ascend(status, message@, message@);
        assert(field_texts(fields@) =~= message_reply(status, message@).fields);
    }
    Response { status, body: object_as_bytes(&fields) }
}

/// The answer to a status request.
fn ready() -> (r: Response)
    ensures
        writes(r, ready_reply()),
{
    let fields: Vec<(&str, &str)> = vec![
        ("device", "cpu"),
        ("state", "ready"),
        ("status", "success"),
    ];
    proof {
        reply_keys_ascend(200, Seq::empty(), Seq::empty());
        assert(field_texts(fields@) =~= ready_reply().fields);
    }
    Response { status: 200, body: object_as_bytes(&fields) }
}

/// The answer where something went wrong that has a detail.
fn detailed_err(status: u16, message: &str, detail: &str) -> (r: Response)
    ensures
        writes(r, detailed_reply(status, message@, detail@)),
{
    let fields: Vec<(&str, &str)> = vec![
        ("detail", detail),
        ("message", message),
        ("status", "error"),
    ];
    proof {
        reply_keys_ascend(status, message@, detail@);
        assert(field_texts(fields@) =~= detailed_reply(status, message@, detail@).fields);
    }
    Response { status, body: object_as_bytes(&fields) }
}

/// The answer with a transcript.
fn transcribed(text: &str) -> (r: Response)
    ensures
        writes(r, transcript_reply(text@)),
{
    let fields: Vec<(&str, &str)> = vec![("status", "success"), ("transcription", text)];
    proof {
        reply_keys_ascend(200, text@, text@);
        assert(field_texts(fields@) =~= transcript_reply(text@).fields);
    }
    Response { status: 200, body: object_as_bytes(&fields) }
}

/// Where a request goes: it is answered at once, or is a transcription.
pub enum Routed {
    Answer(Response),
    Transcribe,
}

/// The answer that a request gets at once; nothing for a transcription.
pub open spec fn immediate_reply(method: Method, path: Seq<char>) -> Option<Reply> {
    if method is Get && path == "/v1/ping"@ {
        Some(message_reply(200, "pong"@))
    } else if method is Get && path == "/v1/status"@ {
        Some(ready_reply())
    } else if method is Post && path == "/v1/load"@ {
        Some(message_reply(202, "Loading started"@))
    } else if method is Post && path == "/v1/cancel"@ {
        Some(message_reply(200, "Cancelled"@))
    } else if method is Post && path == "/v1/transcribe"@ {
        None
    } else {
        Some(error_reply(404, "not_found"@))
    }
}

/// The path of a request: what stands before the query, nothing where the
/// request has neither.
pub open spec fn request_path(path_with_query: Option<Seq<char>>) -> Seq<char> {
    match path_with_query {
        Some(full) => before_question_mark(full),
        None => Seq::empty(),
    }
}

/// Dispatch a `/v1` request by method and path; the query is ignored.
pub fn route(method: Method, path_with_query: Option<&str>) -> (r: Routed)
    ensures
        match r {
            Routed::Answer(response) => {
                &&& immediate_reply(method, request_path(optional_text(path_with_query))) is Some
                &&& writes(
                    response,
                    immediate_reply(method, request_path(optional_text(path_with_query)))->0,
                )
            },
            Routed::Transcribe => immediate_reply(
                method,
                request_path(optional_text(path_with_query)),
            ) is None,
        },
{
    proof {
        reveal_strlit("");
        assert(""@ =~= Seq::empty());
    }
    let path = match path_with_query {
        Some(full) => before_query(full),
        None => "",
    };
    match method {
        Method::Get => if same_text(path, "/v1/ping") {
            Routed::Answer(succeeded(200, "pong"))
        } else if same_text(path, "/v1/status") {
            Routed::Answer(ready())
        } else {
            Routed::Answer(err(404, "not_found"))
        },
        Method::Post => if same_text(path, "/v1/load") {
            Routed::Answer(succeeded(202, "Loading started"))
        } else if same_text(path, "/v1/cancel") {
            Routed::Answer(succeeded(200, "Cancelled"))
        } else if same_text(path, "/v1/transcribe") {
            Routed::Transcribe
        } else {
            Routed::Answer(err(404, "not_found"))
        },
        Method::Other => Routed::Answer(err(404, "not_found")),
    }
}

/// A request to transcribe, as far as its fields are read: the bits of the
/// doubles under `audio_data`, the model, the sample rate, the language.
pub struct BodyFields {
    pub audio: Option<Vec<u64>>,
    pub model: Option<String>,
    pub sample_rate: Option<u64>,
    pub language: Option<String>,
}

/// The fields of a request as plain values.
pub struct BodyModel {
    pub audio: Option<Seq<u64>>,
    pub model: Option<Seq<char>>,
    pub sample_rate: Option<u64>,
    pub language: Option<Seq<char>>,
}

impl View for BodyFields {
    type V = BodyModel;

    open spec fn view(&self) -> BodyModel {
        BodyModel {
            audio: match self.audio {
                Some(bits) => Some(bits@),
                None => None,
            },
            model: optional_string(self.model),
            sample_rate: self.sample_rate,
            language: optional_string(self.language),
        }
    }
}

/// The fields of a request body.
pub open spec fn body_fields(document: Json) -> BodyModel {
    BodyModel {
        audio: match member(document, "audio_data"@) {
            Some(Json::List(items)) => Some(items.map_values(|item: Json| double_bits(item))),
            _ => None,
        },
        model: text_member(document, "model"@),
        sample_rate: unsigned_member(document, "sample_rate"@),
        language: text_member(document, "language"@),
    }
}

/// The fields of a request body that may not be JSON.
pub open spec fn body_read(document: Result<Json, Seq<char>>) -> Option<BodyModel> {
    match document {
        Ok(d) => Some(body_fields(d)),
        Err(_) => None,
    }
}

/// The bits of the doubles in a list; those of zero for an item that is no
/// number.
fn doubles(items: &Vec<serde_json::Value>) -> (r: Vec<u64>)
    ensures
        r@ == items@.map_values(|item: serde_json::Value| double_bits(contents(item))),
{
    let ghost bits = |item: serde_json::Value| double_bits(contents(item));
    let mut out: Vec<u64> = Vec::new();
    let mut i: usize = 0;
    while i < items.len()
        invariant
            i <= items@.len(),
            bits == (|item: serde_json::Value| double_bits(contents(item))),
            out@ == items@.take(i as int).map_values(bits),
        decreases items@.len() - i,
    {
        let value: u64 = match double_bits_of(&items[i]) {
            Some(b) => b,
            None => 0,
        };
        out.push(value);
        proof {
            assert(out@ =~= items@.take(i + 1).map_values(bits));
        }
        i += 1;
    }
    proof {
        assert(items@.take(i as int) =~= items@);
    }
    out
}

/// Read the fields of a request body: nothing where it is not JSON.
pub fn read_body(raw: &[u8]) -> (r: Option<BodyFields>)
    ensures
        match r {
            Some(fields) => body_read(bytes_contents(raw@)) == Some(fields@),
            None => body_read(bytes_contents(raw@)) is None,
        },
        forall|document: Json, items: Seq<Json>|
            bytes_contents(raw@) == Ok::<Json, Seq<char>>(document) && #[trigger] holds(
                document,
                "audio_data"@,
                Json::List(items),
            ) ==> r is Some && r->0.audio is Some && r->0.audio->0@.len() == items.len(),
{
    match parse_bytes(raw) {
        Ok(v) => {
            let audio: Option<Vec<u64>> = match member_of(&v, "audio_data") {
                Some(list) => match list.as_array() {
                    Some(items) => {
                        let bits = doubles(items);
                        proof {
                            let held = items@.map_values(|item: serde_json::Value| contents(item));
                            assert(bits@ =~= held.map_values(|item: Json| double_bits(item)));
                        }
                        Some(bits)
                    },
                    None => None,
                },
                None => None,
            };
            Some(
                BodyFields {
                    audio,
                    model: owned(text_under(&v, "model")),
                    sample_rate: unsigned_under(&v, "sample_rate"),
                    language: owned(text_under(&v, "language")),
                },
            )
        },
        Err(_) => None,
    }
}

/// The language that is forwarded: Mistral detects it where none is named, so
/// the reserved `auto` is none.
pub open spec fn forwarded_language(language: Option<Seq<char>>) -> Option<Seq<char>> {
    if language == Some("auto"@) {
        None
    } else {
        language
    }
}

/// The language that is forwarded.
pub fn forward_language(language: Option<String>) -> (r: Option<String>)
    ensures
        optional_string(r) == forwarded_language(optional_string(language)),
{
    match language {
        Some(code) => if same_text(code.as_str(), "auto") {
            None
        } else {
            Some(code)
        },
        None => None,
    }
}

/// The model of a batch request: the one that its headers name, else the one
/// that its body names, else [`BATCH_MODEL`].
pub open spec fn batch_model(in_headers: Option<Seq<char>>, in_body: Option<Seq<char>>) -> Seq<
    char,
> {
    match in_headers {
        Some(model) => model,
        None => text_or(in_body, BATCH_MODEL@),
    }
}

/// The model of a batch request.
pub fn choose_model(in_headers: Option<String>, in_body: Option<String>) -> (r: String)
    ensures
        r@ == batch_model(optional_string(in_headers), optional_string(in_body)),
{
    match in_headers {
        Some(model) => model,
        None => or_default(in_body, BATCH_MODEL),
    }
}

/// A request to Mistral.
pub struct Outgoing {
    pub method: Method,
    pub is_https: bool,
    pub authority: String,
    pub path: String,
    pub headers: Vec<(String, Vec<u8>)>,
    pub body: Vec<u8>,
}

/// A request to Mistral as plain values.
pub struct OutgoingModel {
    pub method: Method,
    pub is_https: bool,
    pub authority: Seq<char>,
    pub path: Seq<char>,
    pub headers: Seq<(Seq<char>, Seq<u8>)>,
    pub body: Seq<u8>,
}

impl View for Outgoing {
    type V = OutgoingModel;

    open spec fn view(&self) -> OutgoingModel {
        OutgoingModel {
            method: self.method,
            is_https: self.is_https,
            authority: self.authority@,
            path: self.path@,
            headers: header_list(self.headers@),
            body: self.body@,
        }
    }
}

/// The request that samples are sent in.
pub open spec fn outgoing(
    base_url: Seq<char>,
    api_key: Seq<char>,
    model: Seq<char>,
    language: Option<Seq<char>>,
    samples: Seq<i16>,
    sample_rate: u32,
) -> OutgoingModel {
    OutgoingModel {
        method: Method::Post,
        is_https: !is_plain(base_url),
        authority: authority(base_url),
        path: TRANSCRIPTIONS_PATH@,
        headers: seq![
            bearer_header(api_key),
            (
                "content-type"@,
                encode_utf8("multipart/form-data; boundary="@) + encode_utf8(BOUNDARY@),
            ),
        ],
        body: multipart_body(
            BOUNDARY@,
            model,
            language,
            wav_file(samples, sample_rate as int),
        ),
    }
}

/// Shape the request that sends the audio to Mistral's transcription API.
pub fn call_mistral(
    base_url: &str,
    api_key: &str,
    model: &str,
    language: Option<&str>,
    samples: &[i16],
    sample_rate: u32,
) -> (r: Outgoing)
    ensures
        r@ == outgoing(
            base_url@,
            api_key@,
            model@,
            optional_text(language),
            samples@,
            sample_rate,
        ),
        r.method is Post,
        r.is_https == !"http://"@.is_prefix_of(base_url@),
        r.path@ == "/v1/audio/transcriptions"@,
{
    let wav = encode_wav(samples, sample_rate);
    let body = build_multipart(BOUNDARY, model, language, wav.as_slice());
    let (is_https, authority) = parse_base(base_url);
    let mut content_type: Vec<u8> = Vec::new();
    append_text(&mut content_type, "multipart/form-data; boundary=");
    append_text(&mut content_type, BOUNDARY);
    let headers: Vec<(String, Vec<u8>)> = vec![
        bearer(api_key),
        ("content-type".to_string(), content_type),
    ];
    let r = Outgoing {
        method: Method::Post,
        is_https,
        authority,
        path: TRANSCRIPTIONS_PATH.to_string(),
        headers,
        body,
    };
    proof {
        let want = outgoing(
            base_url@,
            api_key@,
            model@,
            optional_text(language),
            samples@,
            sample_rate,
        );
        assert(content_type@ =~= want.headers[1].1);
        assert(header_list(headers@) =~= want.headers);
    }
    r
}

/// The detail of a response whose status is no success.
pub open spec fn status_detail(status: u16, shown: Seq<char>) -> Seq<char> {
    "status "@ + decimal(status as nat) + ": "@ + shown
}

/// The detail of a response whose status is no success.
pub fn status_error(status: u16, shown: &str) -> (r: String)
    ensures
        r@ == status_detail(status, shown@),
{
    let mut detail = "status ".to_string();
    detail.append(decimal_text(status).as_str());
    detail.append(": ");
    detail.append(shown);
    detail
}

/// What a response of Mistral amounts to: a transcript, or why there is none.
pub open spec fn response_outcome(
    status: u16,
    shown: Seq<char>,
    transcript: Result<Seq<char>, Seq<char>>,
) -> Result<Seq<char>, Seq<char>> {
    if 200 <= status < 300 {
        transcript
    } else {
        Err(status_detail(status, shown))
    }
}

/// The characters of a result.
pub open spec fn result_texts(r: Result<String, String>) -> Result<Seq<char>, Seq<char>> {
    match r {
        Ok(t) => Ok(t@),
        Err(e) => Err(e@),
    }
}

/// What a response of Mistral amounts to.
///
/// # Errors
/// Returns a detail if the status is no success, or the body holds no
/// transcript.
pub fn judge_response(status: u16, body: &[u8]) -> (r: Result<String, String>)
    ensures
        result_texts(r) == response_outcome(
            status,
            lossy_text(body@),
            transcript_of(bytes_contents(body@)),
        ),
{
    if 200 <= status && status < 300 {
        parse_transcript(body)
    } else {
        Err(status_error(status, decode_lossy(body).as_str()))
    }
}

/// How far a transcription is.
pub enum Transcription {
    /// The body of the request is being read.
    AwaitBody { settings: Settings },
    /// The doubles of the request are being turned into samples.
    AwaitSamples {
        base_url: String,
        api_key: String,
        model: String,
        count: usize,
        sample_rate: u32,
        language: Option<String>,
    },
    /// Mistral is being called.
    AwaitResponse,
    /// The daemon has its answer.
    Answered,
}

/// How far a transcription is, as plain values.
pub enum TranscriptionModel {
    AwaitBody { settings: SettingsModel },
    AwaitSamples {
        base_url: Seq<char>,
        api_key: Seq<char>,
        model: Seq<char>,
        count: nat,
        sample_rate: u32,
        language: Option<Seq<char>>,
    },
    AwaitResponse,
    Answered,
}

impl View for Transcription {
    type V = TranscriptionModel;

    open spec fn view(&self) -> TranscriptionModel {
        match self {
            Transcription::AwaitBody { settings } => TranscriptionModel::AwaitBody {
                settings: settings@,
            },
            Transcription::AwaitSamples {
                base_url,
                api_key,
                model,
                count,
                sample_rate,
                language,
            } => TranscriptionModel::AwaitSamples {
                base_url: base_url@,
                api_key: api_key@,
                model: model@,
                count: *count as nat,
                sample_rate: *sample_rate,
                language: optional_string(*language),
            },
            Transcription::AwaitResponse => TranscriptionModel::AwaitResponse,
            Transcription::Answered => TranscriptionModel::Answered,
        }
    }
}

/// What came of the work that a transcription asked for.
pub enum TranscriptionEvent {
    /// The request has no body.
    NoBody,
    /// The body could not be read, with the reason.
    BodyFailed(String),
    /// The body.
    Body(Vec<u8>),
    /// The samples, one for each double.
    Samples(Vec<i16>),
    /// Mistral could not be called, with the reason.
    CallFailed(String),
    /// The response of Mistral.
    Responded { status: u16, body: Vec<u8> },
}

/// What came of the work, with what the outside bytes say.
pub enum TranscriptionInput {
    NoBody,
    BodyFailed(String),
    Body(Option<BodyFields>),
    Samples(Vec<i16>),
    Called(Result<String, String>),
}

/// What came of the work, as plain values.
pub enum InputModel {
    NoBody,
    BodyFailed(Seq<char>),
    Body(Option<BodyModel>),
    Samples(Seq<i16>),
    Called(Result<Seq<char>, Seq<char>>),
}

impl View for TranscriptionInput {
    type V = InputModel;

    open spec fn view(&self) -> InputModel {
        match self {
            TranscriptionInput::NoBody => InputModel::NoBody,
            TranscriptionInput::BodyFailed(e) => InputModel::BodyFailed(e@),
            TranscriptionInput::Body(fields) => InputModel::Body(
                match fields {
                    Some(f) => Some(f@),
                    None => None,
                },
            ),
            TranscriptionInput::Samples(samples) => InputModel::Samples(samples@),
            TranscriptionInput::Called(outcome) => InputModel::Called(result_texts(*outcome)),
        }
    }
}

/// What an event says.
pub open spec fn event_input(event: TranscriptionEvent) -> InputModel {
    match event {
        TranscriptionEvent::NoBody => InputModel::NoBody,
        TranscriptionEvent::BodyFailed(e) => InputModel::BodyFailed(e@),
        TranscriptionEvent::Body(raw) => InputModel::Body(body_read(bytes_contents(raw@))),
        TranscriptionEvent::Samples(samples) => InputModel::Samples(samples@),
        TranscriptionEvent::CallFailed(e) => InputModel::Called(Err(e@)),
        TranscriptionEvent::Responded { status, body } => InputModel::Called(
            response_outcome(
                status,
                lossy_text(body@),
                transcript_of(bytes_contents(body@)),
            ),
        ),
    }
}

/// Work that a transcription asks for.
pub enum TranscriptionAction {
    /// Read the body of the request.
    ReadBody,
    /// Turn the doubles with these bits into samples.
    Quantise(Vec<u64>),
    /// Send this to Mistral.
    Send(Outgoing),
    /// Answer the daemon.
    Reply(Response),
}

/// Work that a transcription asks for, as plain values.
pub enum ActionModel {
    ReadBody,
    Quantise(Seq<u64>),
    Send(OutgoingModel),
    Reply(Reply),
}

/// Whether an action asks for that work.
pub open spec fn asks_for(action: TranscriptionAction, work: ActionModel) -> bool {
    match (action, work) {
        (TranscriptionAction::ReadBody, ActionModel::ReadBody) => true,
        (TranscriptionAction::Quantise(bits), ActionModel::Quantise(want)) => bits@ == want,
        (TranscriptionAction::Send(request), ActionModel::Send(want)) => request@ == want,
        (TranscriptionAction::Reply(response), ActionModel::Reply(want)) => writes(response, want),
        _ => false,
    }
}

/// How a transcription begins.
pub open spec fn transcription_start(list: Seq<(Seq<char>, Seq<u8>)>) -> (
    TranscriptionModel,
    ActionModel,
) {
    match settings_in(list) {
        Some(settings) => (TranscriptionModel::AwaitBody { settings }, ActionModel::ReadBody),
        None => (TranscriptionModel::Answered, ActionModel::Reply(missing_key_reply())),
    }
}

/// What an input leads to, where it comes of the work that was asked for.
pub open spec fn transcription_step(phase: TranscriptionModel, input: InputModel) -> (
    TranscriptionModel,
    ActionModel,
) {
    match (phase, input) {
        (TranscriptionModel::AwaitBody { .. }, InputModel::NoBody) => answered(
            error_reply(400, "no_body"@),
        ),
        (TranscriptionModel::AwaitBody { .. }, InputModel::BodyFailed(e)) => answered(
            error_reply(500, e),
        ),
        (TranscriptionModel::AwaitBody { .. }, InputModel::Body(None)) => answered(
            error_reply(400, "invalid_json"@),
        ),
        (TranscriptionModel::AwaitBody { settings }, InputModel::Body(Some(fields))) =>
            match fields.audio {
            Some(bits) => (
                TranscriptionModel::AwaitSamples {
                    base_url: settings.base_url,
                    api_key: settings.api_key,
                    model: batch_model(settings.model, fields.model),
                    count: bits.len(),
                    sample_rate: requested_rate(fields.sample_rate),
                    language: forwarded_language(fields.language),
                },
                ActionModel::Quantise(bits),
            ),
            None => answered(error_reply(400, "invalid_audio"@)),
        },
        (
            TranscriptionModel::AwaitSamples {
                base_url,
                api_key,
                model,
                count,
                sample_rate,
                language,
            },
            InputModel::Samples(samples),
        ) => (
            TranscriptionModel::AwaitResponse,
            ActionModel::Send(
                outgoing(base_url, api_key, model, language, samples, sample_rate),
            ),
        ),
        (TranscriptionModel::AwaitResponse, InputModel::Called(outcome)) => answered(
            call_reply(outcome),
        ),
        _ => arbitrary(),
    }
}

/// The end of a transcription.
pub open spec fn answered(reply: Reply) -> (TranscriptionModel, ActionModel) {
    (TranscriptionModel::Answered, ActionModel::Reply(reply))
}

/// Whether an input is what comes of the work that was asked for.
pub open spec fn comes_of(phase: TranscriptionModel, input: InputModel) -> bool {
    match phase {
        TranscriptionModel::AwaitBody { .. } => input is NoBody || input is BodyFailed
            || input is Body,
        TranscriptionModel::AwaitSamples { count, .. } => input matches InputModel::Samples(samples)
            && samples.len() == count,
        TranscriptionModel::AwaitResponse => input is Called,
        TranscriptionModel::Answered => false,
    }
}

/// Whether an event is what comes of the work that was asked for.
pub open spec fn answers_work(phase: TranscriptionModel, event: TranscriptionEvent) -> bool {
    match phase {
        TranscriptionModel::AwaitBody { .. } => event is NoBody || event is BodyFailed
            || event is Body,
        TranscriptionModel::AwaitSamples { count, .. } =>
            event matches TranscriptionEvent::Samples(samples) && samples@.len() == count,
        TranscriptionModel::AwaitResponse => event is CallFailed || event is Responded,
        TranscriptionModel::Answered => false,
    }
}

/// Begin `POST /v1/transcribe`: read the injected secret/option headers.
pub fn begin_transcription(entries: &[(String, Vec<u8>)]) -> (r: (
    Transcription,
    TranscriptionAction,
))
    ensures
        r.0@ == transcription_start(header_list(entries@)).0,
        asks_for(r.1, transcription_start(header_list(entries@)).1),
{
    match settings(entries) {
        Some(settings) => (
            Transcription::AwaitBody { settings },
            TranscriptionAction::ReadBody,
        ),
        None => (
            Transcription::Answered,
            TranscriptionAction::Reply(
                detailed_err(400, "missing_secret_mistral_api_key", MISSING_KEY_DETAIL),
            ),
        ),
    }
}

/// Read what the outside bytes of an event say.
pub fn read_transcription_event(event: TranscriptionEvent) -> (r: TranscriptionInput)
    ensures
        r@ == event_input(event),
{
    match event {
        TranscriptionEvent::NoBody => TranscriptionInput::NoBody,
        TranscriptionEvent::BodyFailed(e) => TranscriptionInput::BodyFailed(e),
        TranscriptionEvent::Body(raw) => TranscriptionInput::Body(read_body(raw.as_slice())),
        TranscriptionEvent::Samples(samples) => TranscriptionInput::Samples(samples),
        TranscriptionEvent::CallFailed(e) => TranscriptionInput::Called(Err(e)),
        TranscriptionEvent::Responded { status, body } => TranscriptionInput::Called(
            judge_response(status, body.as_slice()),
        ),
    }
}

/// Whether an event is what comes of the work that was asked for.
pub fn transcription_expects(phase: &Transcription, event: &TranscriptionEvent) -> (r: bool)
    ensures
        r == answers_work(phase@, *event),
{
    match (phase, event) {
        (Transcription::AwaitBody { .. }, TranscriptionEvent::NoBody) => true,
        (Transcription::AwaitBody { .. }, TranscriptionEvent::BodyFailed(_)) => true,
        (Transcription::AwaitBody { .. }, TranscriptionEvent::Body(_)) => true,
        (Transcription::AwaitSamples { count, .. }, TranscriptionEvent::Samples(samples)) =>
            samples.len() == *count,
        (Transcription::AwaitResponse, TranscriptionEvent::CallFailed(_)) => true,
        (Transcription::AwaitResponse, TranscriptionEvent::Responded { .. }) => true,
        _ => false,
    }
}

/// Decide on the next step of a transcription.
pub fn transcribe(phase: Transcription, input: TranscriptionInput) -> (r: (
    Transcription,
    TranscriptionAction,
))
    requires
        comes_of(phase@, input@),
    ensures
        r.0@ == transcription_step(phase@, input@).0,
        asks_for(r.1, transcription_step(phase@, input@).1),
{
    match (phase, input) {
        (Transcription::AwaitBody { .. }, TranscriptionInput::NoBody) => finish(
            err(400, "no_body"),
        ),
        (Transcription::AwaitBody { .. }, TranscriptionInput::BodyFailed(e)) => finish(
            err(500, e.as_str()),
        ),
        (Transcription::AwaitBody { .. }, TranscriptionInput::Body(None)) => finish(
            err(400, "invalid_json"),
        ),
        (Transcription::AwaitBody { settings }, TranscriptionInput::Body(Some(fields))) =>
            match fields.audio {
            Some(bits) => (
                Transcription::AwaitSamples {
                    base_url: settings.base_url,
                    api_key: settings.api_key,
                    model: choose_model(settings.model, fields.model),
                    count: bits.len(),
                    sample_rate: rate_or_default(fields.sample_rate),
                    language: forward_language(fields.language),
                },
                TranscriptionAction::Quantise(bits),
            ),
            None => finish(err(400, "invalid_audio")),
        },
        (
            Transcription::AwaitSamples {
                base_url,
                api_key,
                model,
                count,
                sample_rate,
                language,
            },
            TranscriptionInput::Samples(samples),
        ) => {
            let request = call_mistral(
                base_url.as_str(),
                api_key.as_str(),
                model.as_str(),
                borrowed(&language),
                samples.as_slice(),
                sample_rate,
            );
            (Transcription::AwaitResponse, TranscriptionAction::Send(request))
        },
        (Transcription::AwaitResponse, TranscriptionInput::Called(Ok(text))) => finish(
            transcribed(text.as_str()),
        ),
        (Transcription::AwaitResponse, TranscriptionInput::Called(Err(detail))) => finish(
            detailed_err(502, "upstream_error", detail.as_str()),
        ),
        _ => unreached(),
    }
}

/// The end of a transcription.
fn finish(response: Response) -> (r: (Transcription, TranscriptionAction))
    ensures
        r == (Transcription::Answered, TranscriptionAction::Reply(response)),
{
    (Transcription::Answered, TranscriptionAction::Reply(response))
}

/// Take in what came of the work that a transcription asked for, and decide on
/// its next step.
pub fn advance_transcription(phase: Transcription, event: TranscriptionEvent) -> (r: (
    Transcription,
    TranscriptionAction,
))
    requires
        answers_work(phase@, event),
    ensures
        r.0@ == transcription_step(phase@, event_input(event)).0,
        asks_for(r.1, transcription_step(phase@, event_input(event)).1),
{
    transcribe(phase, read_transcription_event(event))
}

} // verus!
