//! What holds of every batch request.

use crate::batch::answered;
use crate::batch::answers_work;
use crate::batch::asks_for;
use crate::batch::batch_model;
use crate::batch::body_fields;
use crate::batch::body_read;
use crate::batch::call_reply;
use crate::batch::comes_of;
use crate::batch::detailed_reply;
use crate::batch::error_reply;
use crate::batch::event_input;
use crate::batch::forwarded_language;
use crate::batch::immediate_reply;
use crate::batch::message_reply;
use crate::batch::missing_key_reply;
use crate::batch::outgoing;
use crate::batch::ready_reply;
use crate::batch::request_path;
use crate::batch::response_outcome;
use crate::batch::status_detail;
use crate::batch::transcript_reply;
use crate::batch::transcription_start;
use crate::batch::transcription_step;
use crate::batch::writes;
use crate::batch::ActionModel;
use crate::batch::BodyFields;
use crate::batch::BodyModel;
use crate::batch::InputModel;
use crate::batch::Method;
use crate::batch::Reply;
use crate::batch::Response;
use crate::batch::Transcription;
use crate::batch::TranscriptionAction;
use crate::batch::TranscriptionEvent;
use crate::batch::TranscriptionInput;
use crate::batch::TranscriptionModel;
use crate::batch::BATCH_MODEL;
use crate::batch::MISSING_KEY_DETAIL;
use crate::bytes::encoding_splits;
use crate::frames::requested_rate;
use crate::frames::transcript_of;
use crate::headers::header_bytes;
use crate::headers::header_list;
use crate::headers::header_text;
use crate::headers::lossy_text;
use crate::headers::settings_in;
use crate::headers::SettingsModel;
use crate::headers::API_KEY_HEADER;
use crate::headers::MODEL_HEADER;
use crate::json::bytes_contents;
use crate::json::holds;
use crate::json::member;
use crate::json::members_found;
use crate::json::text_member;
use crate::json::text_object;
use crate::json::Json;
use crate::json::JsonNumber;
use crate::multipart::audio_head;
use crate::multipart::field_head;
use crate::multipart::form_bytes;
use crate::multipart::the_body_is_a_form;
use crate::text::decimal;
use crate::text::decimal_reads_back;
use crate::text::decimal_value;
use crate::text::optional_string;
use crate::url::a_base_url_is_scheme_authority_and_slashes;
use crate::url::names_host;
use crate::url::scheme_decides_only_tls;
use crate::wav::wav_file;
use vstd::prelude::*;
use vstd::utf8::decode_utf8_encode_utf8;
use vstd::utf8::encode_utf8;
use vstd::utf8::valid_utf8;

verus! {

/// The text under a key of the body of an answer.
pub open spec fn reply_field(reply: Reply, key: Seq<char>) -> Option<Seq<char>> {
    text_member(text_object(reply.fields), key)
}

/// Whether the body of an answer says whether all is well, as its status does.
pub open spec fn says_how_it_went(reply: Reply) -> bool {
    reply_field(reply, "status"@) == Some(
        if reply.status < 300 {
            "success"@
        } else {
            "error"@
        },
    )
}

/// The keys of answers differ.
proof fn keys_differ()
    ensures
        "detail"@ != "message"@,
        "detail"@ != "status"@,
        "device"@ != "state"@,
        "device"@ != "status"@,
        "message"@ != "status"@,
        "state"@ != "status"@,
        "status"@ != "transcription"@,
{
    reveal_strlit("detail");
    reveal_strlit("device");
    reveal_strlit("message");
    reveal_strlit("state");
    reveal_strlit("status");
    reveal_strlit("transcription");
    assert("detail"@[0] != "message"@[0]);
    assert("detail"@[0] != "status"@[0]);
    assert("device"@[0] != "state"@[0]);
    assert("device"@[0] != "status"@[0]);
    assert("message"@[0] != "status"@[0]);
    assert("state"@.len() != "status"@.len());
    assert("status"@[0] != "transcription"@[0]);
}

/// What each kind of answer says under its keys.
pub proof fn replies_read_back(status: u16, message: Seq<char>, detail: Seq<char>)
    ensures
        reply_field(error_reply(status, message), "status"@) == Some("error"@),
        reply_field(error_reply(status, message), "message"@) == Some(message),
        reply_field(message_reply(status, message), "status"@) == Some("success"@),
        reply_field(message_reply(status, message), "message"@) == Some(message),
        reply_field(ready_reply(), "status"@) == Some("success"@),
        reply_field(ready_reply(), "state"@) == Some("ready"@),
        reply_field(ready_reply(), "device"@) == Some("cpu"@),
        reply_field(detailed_reply(status, message, detail), "status"@) == Some("error"@),
        reply_field(detailed_reply(status, message, detail), "message"@) == Some(message),
        reply_field(detailed_reply(status, message, detail), "detail"@) == Some(detail),
        reply_field(transcript_reply(message), "status"@) == Some("success"@),
        reply_field(transcript_reply(message), "transcription"@) == Some(message),
{
    keys_differ();
    let a = error_reply(status, message).fields;
    let b = message_reply(status, message).fields;
    let c = ready_reply().fields;
    let d = detailed_reply(status, message, detail).fields;
    let e = transcript_reply(message).fields;
    members_found(a);
    members_found(b);
    members_found(c);
    members_found(d);
    members_found(e);
    assert(a[0].0 == "message"@ && a[1].0 == "status"@);
    assert(b[0].0 == "message"@ && b[1].0 == "status"@);
    assert(c[0].0 == "device"@ && c[1].0 == "state"@ && c[2].0 == "status"@);
    assert(d[0].0 == "detail"@ && d[1].0 == "message"@ && d[2].0 == "status"@);
    assert(e[0].0 == "status"@ && e[1].0 == "transcription"@);
}

/// Every answer that is given at once says whether all is well, and its status
/// agrees.
pub proof fn immediate_replies_say_how_it_went(method: Method, path: Seq<char>)
    ensures
        immediate_reply(method, path) matches Some(reply) ==> says_how_it_went(reply),
{
    replies_read_back(200, "pong"@, Seq::empty());
    replies_read_back(202, "Loading started"@, Seq::empty());
    replies_read_back(200, "Cancelled"@, Seq::empty());
    replies_read_back(404, "not_found"@, Seq::empty());
}

/// Every answer to a transcription says whether all is well, and its status
/// agrees.
pub proof fn transcription_replies_say_how_it_went(
    list: Seq<(Seq<char>, Seq<u8>)>,
    phase: TranscriptionModel,
    input: InputModel,
)
    requires
        comes_of(phase, input),
    ensures
        transcription_start(list).1 matches ActionModel::Reply(reply) ==> says_how_it_went(reply),
        transcription_step(phase, input).1 matches ActionModel::Reply(reply) ==> says_how_it_went(
            reply,
        ),
{
    replies_read_back(400, "missing_secret_mistral_api_key"@, MISSING_KEY_DETAIL@);
    replies_read_back(400, "no_body"@, Seq::empty());
    replies_read_back(400, "invalid_json"@, Seq::empty());
    replies_read_back(400, "invalid_audio"@, Seq::empty());
    match input {
        InputModel::BodyFailed(e) => replies_read_back(500, e, Seq::empty()),
        InputModel::Called(Ok(text)) => replies_read_back(200, text, Seq::empty()),
        InputModel::Called(Err(e)) => replies_read_back(502, "upstream_error"@, e),
        _ => {},
    }
}

/// The query of a request makes no difference to where it goes.
pub proof fn the_query_is_ignored(path: Seq<char>, query: Seq<char>)
    requires
        !path.contains('?'),
    ensures
        request_path(Some(path + seq!['?'] + query)) == path,
        request_path(Some(path)) == path,
    decreases path.len(),
{
    let full = path + seq!['?'] + query;
    if path.len() > 0 {
        let rest = path.drop_first();
        assert(path[0] != '?');
        assert forall|i: int| 0 <= i < rest.len() implies rest[i] != '?' by {
            assert(rest[i] == path[i + 1]);
        }
        the_query_is_ignored(rest, query);
        assert(full.drop_first() =~= rest + seq!['?'] + query);
        assert(seq![path[0]] + rest =~= path);
    } else {
        assert(full.first() == '?');
        assert(path =~= Seq::empty());
    }
}

/// Without an API key the request is refused with a detail for the user, and is
/// over: Mistral is not called.
pub proof fn no_key_no_call(list: Seq<(Seq<char>, Seq<u8>)>, later: InputModel)
    requires
        header_bytes(list, API_KEY_HEADER@) is None,
    ensures
        transcription_start(list) == answered(missing_key_reply()),
        missing_key_reply().status == 400,
        reply_field(missing_key_reply(), "message"@) == Some("missing_secret_mistral_api_key"@),
        reply_field(missing_key_reply(), "detail"@) == Some(MISSING_KEY_DETAIL@),
        !comes_of(transcription_start(list).0, later),
{
    replies_read_back(400, "missing_secret_mistral_api_key"@, MISSING_KEY_DETAIL@);
}

/// How far a transcription is after inputs.
pub open spec fn transcription_after(
    first: TranscriptionModel,
    inputs: Seq<InputModel>,
) -> TranscriptionModel
    decreases inputs.len(),
{
    if inputs.len() == 0 {
        first
    } else {
        transcription_step(transcription_after(first, inputs.drop_last()), inputs.last()).0
    }
}

/// What the last of some inputs led to.
pub open spec fn last_action(first: TranscriptionModel, inputs: Seq<InputModel>) -> ActionModel {
    transcription_step(transcription_after(first, inputs.drop_last()), inputs.last()).1
}

/// Whether each input is what came of the work that was asked for before it.
pub open spec fn is_transcription_course(
    first: TranscriptionModel,
    inputs: Seq<InputModel>,
) -> bool
    decreases inputs.len(),
{
    inputs.len() > 0 ==> {
        &&& is_transcription_course(first, inputs.drop_last())
        &&& comes_of(transcription_after(first, inputs.drop_last()), inputs.last())
    }
}

/// How far a transcription is tells what it took in.
proof fn transcription_tells_history(settings: SettingsModel, inputs: Seq<InputModel>)
    requires
        is_transcription_course(TranscriptionModel::AwaitBody { settings }, inputs),
    ensures
        match transcription_after(TranscriptionModel::AwaitBody { settings }, inputs) {
            TranscriptionModel::AwaitBody { settings: s } => inputs.len() == 0 && s == settings,
            TranscriptionModel::AwaitSamples {
                base_url,
                api_key,
                model,
                count,
                sample_rate,
                language,
            } => {
                &&& inputs.len() == 1
                &&& base_url == settings.base_url
                &&& api_key == settings.api_key
                &&& inputs[0] matches InputModel::Body(Some(fields))
                &&& fields.audio is Some
                &&& fields.audio->0.len() == count
                &&& model == batch_model(settings.model, fields.model)
                &&& sample_rate == requested_rate(fields.sample_rate)
                &&& language == forwarded_language(fields.language)
            },
            TranscriptionModel::AwaitResponse => inputs.len() == 2,
            TranscriptionModel::Answered => 1 <= inputs.len() <= 3,
        },
    decreases inputs.len(),
{
    if inputs.len() > 0 {
        let before = inputs.drop_last();
        transcription_tells_history(settings, before);
        if before.len() == 0 {
            assert(inputs.last() == inputs[0]);
        }
    }
}

/// Mistral is called only with what the request asked for: the key of its
/// headers, the model of its headers or else of its body, the language and the
/// sample rate of its body, and a sample for each item of its audio.
pub proof fn calls_carry_the_request(settings: SettingsModel, inputs: Seq<InputModel>)
    requires
        is_transcription_course(TranscriptionModel::AwaitBody { settings }, inputs),
        inputs.len() > 0,
        last_action(TranscriptionModel::AwaitBody { settings }, inputs) is Send,
    ensures
        ({
            &&& inputs.len() == 2
            &&& inputs[0] matches InputModel::Body(Some(fields))
            &&& inputs[1] matches InputModel::Samples(samples)
            &&& fields.audio is Some
            &&& samples.len() == fields.audio->0.len()
            &&& last_action(TranscriptionModel::AwaitBody { settings }, inputs)
                == ActionModel::Send(
                outgoing(
                    settings.base_url,
                    settings.api_key,
                    batch_model(settings.model, fields.model),
                    forwarded_language(fields.language),
                    samples,
                    requested_rate(fields.sample_rate),
                ),
            )
        }),
{
    let before = inputs.drop_last();
    transcription_tells_history(settings, before);
    assert(before[0] == inputs[0]);
    assert(inputs.last() == inputs[inputs.len() - 1]);
}

/// A transcription takes three inputs at most, and so calls Mistral once at
/// most.
pub proof fn a_transcription_is_short(settings: SettingsModel, inputs: Seq<InputModel>)
    requires
        is_transcription_course(TranscriptionModel::AwaitBody { settings }, inputs),
    ensures
        inputs.len() <= 3,
{
    transcription_tells_history(settings, inputs);
}

/// The round trip: a request with a key and audio is sent to Mistral as shaped,
/// and the transcript in the response is the answer.
pub proof fn transcription_round_trip(
    list: Seq<(Seq<char>, Seq<u8>)>,
    fields: BodyModel,
    samples: Seq<i16>,
    text: Seq<char>,
)
    requires
        header_bytes(list, API_KEY_HEADER@) is Some,
        fields.audio is Some,
        samples.len() == fields.audio->0.len(),
    ensures
        ({
            let settings = settings_in(list)->0;
            let (a, read) = transcription_start(list);
            let (b, quantise) = transcription_step(a, InputModel::Body(Some(fields)));
            let (c, send) = transcription_step(b, InputModel::Samples(samples));
            let (d, reply) = transcription_step(c, InputModel::Called(Ok(text)));
            &&& settings.api_key == header_text(list, API_KEY_HEADER@)->0
            &&& settings.model == header_text(list, MODEL_HEADER@)
            &&& comes_of(a, InputModel::Body(Some(fields)))
            &&& comes_of(b, InputModel::Samples(samples))
            &&& comes_of(c, InputModel::Called(Ok(text)))
            &&& read is ReadBody
            &&& quantise == ActionModel::Quantise(fields.audio->0)
            &&& send == ActionModel::Send(
                outgoing(
                    settings.base_url,
                    settings.api_key,
                    batch_model(settings.model, fields.model),
                    forwarded_language(fields.language),
                    samples,
                    requested_rate(fields.sample_rate),
                ),
            )
            &&& reply == ActionModel::Reply(transcript_reply(text))
            &&& d is Answered
        }),
{
}

/// An API key that is UTF-8 goes to Mistral as the bearer token, byte for byte.
pub proof fn the_key_is_the_bearer_token(
    list: Seq<(Seq<char>, Seq<u8>)>,
    model: Seq<char>,
    language: Option<Seq<char>>,
    samples: Seq<i16>,
    sample_rate: u32,
)
    requires
        header_bytes(list, API_KEY_HEADER@) is Some,
        valid_utf8(header_bytes(list, API_KEY_HEADER@)->0),
    ensures
        ({
            let settings = settings_in(list)->0;
            outgoing(
                settings.base_url,
                settings.api_key,
                model,
                language,
                samples,
                sample_rate,
            ).headers[0] == (
                "authorization"@,
                encode_utf8("Bearer "@) + header_bytes(list, API_KEY_HEADER@)->0,
            )
        }),
{
    decode_utf8_encode_utf8(header_bytes(list, API_KEY_HEADER@)->0);
}

/// Without a model in the headers, the model that the body names is the one that
/// Mistral is asked for; where the body names none either, it is the default.
pub proof fn the_body_names_the_model(
    list: Seq<(Seq<char>, Seq<u8>)>,
    fields: BodyModel,
    samples: Seq<i16>,
)
    requires
        header_bytes(list, API_KEY_HEADER@) is Some,
        header_bytes(list, MODEL_HEADER@) is None,
        fields.audio is Some,
        samples.len() == fields.audio->0.len(),
    ensures
        ({
            let settings = settings_in(list)->0;
            let waiting = transcription_step(
                transcription_start(list).0,
                InputModel::Body(Some(fields)),
            ).0;
            transcription_step(waiting, InputModel::Samples(samples)).1 == ActionModel::Send(
                outgoing(
                    settings.base_url,
                    settings.api_key,
                    match fields.model {
                        Some(model) => model,
                        None => BATCH_MODEL@,
                    },
                    forwarded_language(fields.language),
                    samples,
                    requested_rate(fields.sample_rate),
                ),
            )
        }),
{
}

/// The reserved language `auto` is sent as no language is.
pub proof fn auto_is_no_language(fields: BodyModel, settings: SettingsModel)
    ensures
        transcription_step(
            TranscriptionModel::AwaitBody { settings },
            InputModel::Body(Some(BodyModel { language: Some("auto"@), ..fields })),
        ) == transcription_step(
            TranscriptionModel::AwaitBody { settings },
            InputModel::Body(Some(BodyModel { language: None, ..fields })),
        ),
{
}

/// Whatever goes wrong with the call, the answer is a bad gateway with the
/// reason.
pub proof fn a_failed_call_is_a_bad_gateway(detail: Seq<char>)
    ensures
        call_reply(Err(detail)).status == 502,
        reply_field(call_reply(Err(detail)), "message"@) == Some("upstream_error"@),
        reply_field(call_reply(Err(detail)), "detail"@) == Some(detail),
{
    replies_read_back(502, "upstream_error"@, detail);
}

/// The audio of a body is the list under `audio_data`, item for item: the double
/// of a number, and zero for anything else. There is none exactly where there is
/// no such list. The model and the language are the strings under those names,
/// the sample rate is the unsigned integer under its name.
pub proof fn the_body_is_read_whole(
    document: Json,
    items: Seq<Json>,
    rate: JsonNumber,
    text: Seq<char>,
    message: Seq<char>,
)
    ensures
        body_read(Ok(document)) == Some(body_fields(document)),
        body_read(Err(message)) is None,
        holds(document, "audio_data"@, Json::List(items)) ==> {
            &&& body_fields(document).audio matches Some(bits)
            &&& bits.len() == items.len()
            &&& forall|i: int|
                0 <= i < items.len() ==> #[trigger] bits[i] == (match items[i] {
                    Json::Number(n) => n.double_bits,
                    _ => 0,
                })
        },
        (forall|l: Seq<Json>| !#[trigger] holds(document, "audio_data"@, Json::List(l)))
            ==> body_fields(document).audio is None,
        body_fields(document).model == Some(text) <==> holds(document, "model"@, Json::Text(text)),
        body_fields(document).language == Some(text) <==> holds(
            document,
            "language"@,
            Json::Text(text),
        ),
        holds(document, "sample_rate"@, Json::Number(rate)) ==> body_fields(document).sample_rate
            == rate.unsigned,
        (forall|n: JsonNumber| !#[trigger] holds(document, "sample_rate"@, Json::Number(n)))
            ==> body_fields(document).sample_rate is None,
{
    if let Some(Json::List(l)) = member(document, "audio_data"@) {
        assert(holds(document, "audio_data"@, Json::List(l)));
    }
    if let Some(Json::Number(n)) = member(document, "sample_rate"@) {
        assert(holds(document, "sample_rate"@, Json::Number(n)));
    }
}

/// What each request is answered at once, by its method and path; only `POST
/// /v1/transcribe` is not, and everything that is not listed is not found.
pub proof fn routes_are_answered(path: Seq<char>, method: Method)
    ensures
        ({
            let ping = method is Get && path == "/v1/ping"@;
            let status = method is Get && path == "/v1/status"@;
            let load = method is Post && path == "/v1/load"@;
            let cancel = method is Post && path == "/v1/cancel"@;
            let transcribe = method is Post && path == "/v1/transcribe"@;
            let reply = immediate_reply(method, path);
            &&& reply is None <==> transcribe
            &&& ping ==> reply->0.status == 200 && reply_field(reply->0, "message"@) == Some(
                "pong"@,
            )
            &&& status ==> reply->0.status == 200 && reply_field(reply->0, "state"@) == Some(
                "ready"@,
            ) && reply_field(reply->0, "device"@) == Some("cpu"@)
            &&& load ==> reply->0.status == 202 && reply_field(reply->0, "message"@) == Some(
                "Loading started"@,
            )
            &&& cancel ==> reply->0.status == 200 && reply_field(reply->0, "message"@) == Some(
                "Cancelled"@,
            )
            &&& ping || status || load || cancel ==> reply_field(reply->0, "status"@) == Some(
                "success"@,
            )
            &&& !(ping || status || load || cancel || transcribe) ==> reply->0.status == 404
                && reply_field(reply->0, "message"@) == Some("not_found"@) && reply_field(
                reply->0,
                "status"@,
            ) == Some("error"@)
        }),
        request_path(None).len() == 0,
{
    replies_read_back(200, "pong"@, Seq::empty());
    replies_read_back(202, "Loading started"@, Seq::empty());
    replies_read_back(200, "Cancelled"@, Seq::empty());
    replies_read_back(404, "not_found"@, Seq::empty());
    paths_differ();
}

/// The paths differ.
proof fn paths_differ()
    ensures
        "/v1/ping"@ != "/v1/status"@,
        "/v1/load"@ != "/v1/cancel"@,
        "/v1/load"@ != "/v1/transcribe"@,
        "/v1/cancel"@ != "/v1/transcribe"@,
{
    reveal_strlit("/v1/ping");
    reveal_strlit("/v1/status");
    reveal_strlit("/v1/load");
    reveal_strlit("/v1/cancel");
    reveal_strlit("/v1/transcribe");
    assert("/v1/ping"@.len() != "/v1/status"@.len());
    assert("/v1/load"@.len() != "/v1/cancel"@.len());
    assert("/v1/load"@.len() != "/v1/transcribe"@.len());
    assert("/v1/cancel"@.len() != "/v1/transcribe"@.len());
}

/// An answer has the status that it is given, and no fields but those that read
/// back.
pub proof fn replies_say_nothing_else(status: u16, message: Seq<char>, detail: Seq<char>)
    ensures
        error_reply(status, message).status == status,
        message_reply(status, message).status == status,
        detailed_reply(status, message, detail).status == status,
        ready_reply().status == 200,
        transcript_reply(message).status == 200,
        error_reply(status, message).fields.len() == 2,
        message_reply(status, message).fields.len() == 2,
        detailed_reply(status, message, detail).fields.len() == 3,
        ready_reply().fields.len() == 3,
        transcript_reply(message).fields.len() == 2,
{
}

/// A response that writes an answer has its status, and its body is JSON with
/// the same text under each key.
pub proof fn written_replies_are_read(response: Response, reply: Reply, key: Seq<char>)
    requires
        writes(response, reply),
    ensures
        response.status == reply.status,
        bytes_contents(response.body@) matches Ok(document) && text_member(document, key)
            == reply_field(reply, key),
{
}

/// A language goes to Mistral as it is, but for `auto`, which is none.
pub proof fn languages_are_forwarded(language: Seq<char>)
    ensures
        forwarded_language(None) is None,
        forwarded_language(Some("auto"@)) is None,
        language != "auto"@ ==> forwarded_language(Some(language)) == Some(language),
{
}

/// A model in the headers is the model; without one it is the model in the body,
/// and without that `voxtral-mini-latest`.
pub proof fn models_are_chosen(in_headers: Seq<char>, in_body: Seq<char>)
    ensures
        batch_model(Some(in_headers), Some(in_body)) == in_headers,
        batch_model(Some(in_headers), None) == in_headers,
        batch_model(None, Some(in_body)) == in_body,
        batch_model(None, None) == "voxtral-mini-latest"@,
{
}

/// All doubles of a body become samples: each of them is handed out to be turned
/// into one, and as many samples are taken back.
pub proof fn all_audio_becomes_samples(
    settings: SettingsModel,
    fields: BodyModel,
    samples: Seq<i16>,
)
    requires
        fields.audio is Some,
    ensures
        ({
            let (next, action) = transcription_step(
                TranscriptionModel::AwaitBody { settings },
                InputModel::Body(Some(fields)),
            );
            &&& action == ActionModel::Quantise(fields.audio->0)
            &&& comes_of(next, InputModel::Samples(samples)) <==> samples.len()
                == fields.audio->0.len()
        }),
{
}

/// A request to Mistral is a `POST` to the transcriptions path of the host that
/// stands between scheme and slashes in the base URL. It is encrypted exactly
/// where the base URL does not start with `http://`.
pub proof fn requests_go_where_the_base_url_says(
    base_url: Seq<char>,
    api_key: Seq<char>,
    model: Seq<char>,
    language: Option<Seq<char>>,
    samples: Seq<i16>,
    sample_rate: u32,
)
    ensures
        ({
            let r = outgoing(base_url, api_key, model, language, samples, sample_rate);
            &&& r.method is Post
            &&& r.path == "/v1/audio/transcriptions"@
            &&& r.is_https <==> !"http://"@.is_prefix_of(base_url)
            &&& names_host(base_url, !r.is_https, r.authority)
        }),
{
    a_base_url_is_scheme_authority_and_slashes(base_url);
}

/// Requests for the default base URL, and for any that starts with `https://`,
/// are encrypted and go to the host behind it.
pub proof fn https_requests_are_encrypted(
    host: Seq<char>,
    api_key: Seq<char>,
    model: Seq<char>,
    language: Option<Seq<char>>,
    samples: Seq<i16>,
    sample_rate: u32,
)
    requires
        host.len() > 0,
        host.last() != '/',
    ensures
        ({
            let secure = outgoing(
                "https://"@ + host,
                api_key,
                model,
                language,
                samples,
                sample_rate,
            );
            let plain = outgoing("http://"@ + host, api_key, model, language, samples, sample_rate);
            &&& secure.is_https
            &&& secure.authority == host
            &&& !plain.is_https
            &&& plain.authority == host
            &&& plain.headers == secure.headers
            &&& plain.body == secure.body
        }),
{
    scheme_decides_only_tls(host);
}

/// A request to Mistral has two headers, the key's and the content type, and its
/// body is a form with the boundary of the content type: the model, the language
/// where there is one, and the samples as a WAV file.
pub proof fn requests_carry_a_form(
    base_url: Seq<char>,
    api_key: Seq<char>,
    model: Seq<char>,
    language: Option<Seq<char>>,
    samples: Seq<i16>,
    sample_rate: u32,
)
    ensures
        ({
            let r = outgoing(base_url, api_key, model, language, samples, sample_rate);
            let wav = wav_file(samples, sample_rate as int);
            &&& r.headers.len() == 2
            &&& r.headers[0] == ("authorization"@, encode_utf8("Bearer "@ + api_key))
            &&& r.headers[1] == (
                "content-type"@,
                encode_utf8(
                    "multipart/form-data; boundary="@ + "----superstt7MA4YWxkTrZu0gW"@,
                ),
            )
            &&& r.body == form_bytes(
                encode_utf8("----superstt7MA4YWxkTrZu0gW"@),
                match language {
                    Some(code) => seq![
                        (field_head("model"@), encode_utf8(model)),
                        (field_head("language"@), encode_utf8(code)),
                        (audio_head(), wav),
                    ],
                    None => seq![
                        (field_head("model"@), encode_utf8(model)),
                        (audio_head(), wav),
                    ],
                },
            )
        }),
{
    encoding_splits("Bearer "@, api_key);
    encoding_splits("multipart/form-data; boundary="@, "----superstt7MA4YWxkTrZu0gW"@);
    the_body_is_a_form(
        "----superstt7MA4YWxkTrZu0gW"@,
        model,
        language,
        wav_file(samples, sample_rate as int),
    );
}

/// A response with a status in the two hundreds amounts to its transcript, or to
/// why there is none. Any other amounts to its status in decimal and its body,
/// whatever that holds.
pub proof fn responses_are_judged_by_status(
    status: u16,
    shown: Seq<char>,
    transcript: Result<Seq<char>, Seq<char>>,
)
    ensures
        200 <= status <= 299 ==> response_outcome(status, shown, transcript) == transcript,
        !(200 <= status <= 299) ==> exists|digits: Seq<char>|
            {
                &&& response_outcome(status, shown, transcript) == Err::<Seq<char>, Seq<char>>(
                    #[trigger] ("status "@ + digits + ": "@ + shown),
                )
                &&& decimal_value(digits) == status
                &&& digits.len() > 0
                &&& forall|i: int| 0 <= i < digits.len() ==> '0' <= #[trigger] digits[i] <= '9'
                &&& status > 0 ==> digits.first() != '0'
            },
{
    decimal_reads_back(status as nat);
    let digits = decimal(status as nat);
    assert(status_detail(status, shown) == "status "@ + digits + ": "@ + shown);
}

/// Whatever response came, what its bytes say decides on the answer: with a
/// status in the two hundreds, the string under `text` is the transcript of the
/// answer, unchanged.
pub proof fn a_response_is_answered_with_its_text(
    event: TranscriptionEvent,
    status: u16,
    body: Vec<u8>,
    document: Json,
    s: Seq<char>,
)
    requires
        event == (TranscriptionEvent::Responded { status, body }),
        200 <= status <= 299,
        bytes_contents(body@) == Ok::<Json, Seq<char>>(document),
        holds(document, "text"@, Json::Text(s)),
    ensures
        ({
            let (next, action) = transcription_step(
                TranscriptionModel::AwaitResponse,
                event_input(event),
            );
            &&& next is Answered
            &&& action matches ActionModel::Reply(reply)
            &&& reply.status == 200
            &&& reply_field(reply, "status"@) == Some("success"@)
            &&& reply_field(reply, "transcription"@) == Some(s)
        }),
{
    replies_read_back(200, s, Seq::empty());
}

/// A call that failed, and a response that is no success or holds no transcript,
/// are answered with a bad gateway that gives the reason.
pub proof fn a_failed_call_is_answered_with_its_reason(event: TranscriptionEvent)
    requires
        answers_work(TranscriptionModel::AwaitResponse, event),
        event_input(event) matches InputModel::Called(outcome) && outcome is Err,
    ensures
        ({
            let (next, action) = transcription_step(
                TranscriptionModel::AwaitResponse,
                event_input(event),
            );
            &&& next is Answered
            &&& action matches ActionModel::Reply(reply)
            &&& reply.status == 502
            &&& reply_field(reply, "status"@) == Some("error"@)
            &&& reply_field(reply, "message"@) == Some("upstream_error"@)
            &&& reply_field(reply, "detail"@) == Some(event_input(event)->Called_0->Err_0)
            &&& event matches TranscriptionEvent::CallFailed(e) ==> reply_field(reply, "detail"@)
                == Some(e@)
        }),
{
    replies_read_back(502, "upstream_error"@, event_input(event)->Called_0->Err_0);
}

/// Each body that holds no audio is refused with its own message, and the
/// transcription is over.
pub proof fn bad_bodies_are_refused(
    settings: SettingsModel,
    reason: Seq<char>,
    fields: BodyModel,
)
    requires
        fields.audio is None,
    ensures
        ({
            let waiting = TranscriptionModel::AwaitBody { settings };
            let none = transcription_step(waiting, InputModel::NoBody);
            let failed = transcription_step(waiting, InputModel::BodyFailed(reason));
            let garbled = transcription_step(waiting, InputModel::Body(None));
            let silent = transcription_step(waiting, InputModel::Body(Some(fields)));
            &&& is_refusal(none, 400, "no_body"@)
            &&& is_refusal(failed, 500, reason)
            &&& is_refusal(garbled, 400, "invalid_json"@)
            &&& is_refusal(silent, 400, "invalid_audio"@)
        }),
{
    replies_read_back(400, "no_body"@, Seq::empty());
    replies_read_back(500, reason, Seq::empty());
    replies_read_back(400, "invalid_json"@, Seq::empty());
    replies_read_back(400, "invalid_audio"@, Seq::empty());
}

/// Whether a transcription is over, with an error of that status and message.
pub open spec fn is_refusal(
    step: (TranscriptionModel, ActionModel),
    status: u16,
    message: Seq<char>,
) -> bool {
    &&& step.0 is Answered
    &&& step.1 matches ActionModel::Reply(reply)
    &&& reply.status == status
    &&& reply_field(reply, "status"@) == Some("error"@)
    &&& reply_field(reply, "message"@) == Some(message)
}

/// Without an API key the answer is a refusal that tells the user where to set
/// it.
pub proof fn a_missing_key_is_explained(list: Seq<(Seq<char>, Seq<u8>)>)
    requires
        header_bytes(list, "x-stt-secret-mistral_api_key"@) is None,
    ensures
        is_refusal(transcription_start(list), 400, "missing_secret_mistral_api_key"@),
        transcription_start(list).1 matches ActionModel::Reply(reply) && reply_field(
            reply,
            "detail"@,
        ) == Some(
            "Mistral API key not set. Add it in Settings \u{2192} Models \u{2192} Mistral."@,
        ),
{
    replies_read_back(400, "missing_secret_mistral_api_key"@, MISSING_KEY_DETAIL@);
}

/// An event says what its outside bytes say, and nothing of it is lost.
pub proof fn events_are_read(event: TranscriptionEvent)
    ensures
        match event {
            TranscriptionEvent::NoBody => event_input(event) is NoBody,
            TranscriptionEvent::BodyFailed(e) => event_input(event) == InputModel::BodyFailed(e@),
            TranscriptionEvent::Body(raw) => event_input(event) == InputModel::Body(
                body_read(bytes_contents(raw@)),
            ),
            TranscriptionEvent::Samples(samples) => event_input(event) == InputModel::Samples(
                samples@,
            ),
            TranscriptionEvent::CallFailed(e) => event_input(event) == InputModel::Called(Err(e@)),
            TranscriptionEvent::Responded { status, body } => event_input(event)
                == InputModel::Called(
                response_outcome(
                    status,
                    lossy_text(body@),
                    transcript_of(bytes_contents(body@)),
                ),
            ),
        },
{
}

/// Every outcome of the work that is asked for is taken in: a body or its
/// failure, a sample for each double, a response or its failure. An event is
/// taken in exactly where what it says is.
pub proof fn every_outcome_is_taken_in(phase: TranscriptionModel, event: TranscriptionEvent)
    ensures
        answers_work(phase, event) <==> comes_of(phase, event_input(event)),
        phase is AwaitBody && (event is NoBody || event is BodyFailed || event is Body)
            ==> answers_work(phase, event),
        phase is AwaitResponse && (event is CallFailed || event is Responded) ==> answers_work(
            phase,
            event,
        ),
        phase matches TranscriptionModel::AwaitSamples { count, .. } ==> (
        event matches TranscriptionEvent::Samples(samples) ==> (answers_work(phase, event)
            <==> samples@.len() == count)),
{
}

/// An action asks for that work and no other: what it holds is what is meant,
/// field for field.
pub proof fn actions_are_the_work(action: TranscriptionAction, work: ActionModel)
    requires
        asks_for(action, work),
    ensures
        match action {
            TranscriptionAction::ReadBody => work is ReadBody,
            TranscriptionAction::Quantise(bits) => work == ActionModel::Quantise(bits@),
            TranscriptionAction::Send(r) => {
                &&& work matches ActionModel::Send(want)
                &&& r.method == want.method
                &&& r.is_https == want.is_https
                &&& r.authority@ == want.authority
                &&& r.path@ == want.path
                &&& r.headers@.len() == want.headers.len()
                &&& forall|i: int|
                    0 <= i < r.headers@.len() ==> (#[trigger] r.headers@[i]).0@ == want.headers[i].0
                        && r.headers@[i].1@ == want.headers[i].1
                &&& r.body@ == want.body
            },
            TranscriptionAction::Reply(response) => work matches ActionModel::Reply(reply)
                && response.status == reply.status && bytes_contents(response.body@) == Ok::<
                Json,
                Seq<char>,
            >(text_object(reply.fields)),
        },
{
    if let TranscriptionAction::Send(r) = action {
        let list = header_list(r.headers@);
        assert forall|i: int| 0 <= i < r.headers@.len() implies (#[trigger] r.headers@[i]).0@
            == list[i].0 && r.headers@[i].1@ == list[i].1 by {}
    }
}

/// The fields of a body, and how far a transcription is, are seen whole.
pub proof fn transcriptions_are_seen_whole(fields: BodyFields, phase: Transcription)
    ensures
        fields@.audio is Some <==> fields.audio is Some,
        fields.audio matches Some(bits) ==> fields@.audio == Some(bits@),
        fields@.model == optional_string(fields.model),
        fields@.language == optional_string(fields.language),
        fields@.sample_rate == fields.sample_rate,
        match phase {
            Transcription::AwaitBody { settings } => phase@ == (TranscriptionModel::AwaitBody {
                settings: settings@,
            }),
            Transcription::AwaitSamples {
                base_url,
                api_key,
                model,
                count,
                sample_rate,
                language,
            } => phase@ == (TranscriptionModel::AwaitSamples {
                base_url: base_url@,
                api_key: api_key@,
                model: model@,
                count: count as nat,
                sample_rate,
                language: optional_string(language),
            }),
            Transcription::AwaitResponse => phase@ is AwaitResponse,
            Transcription::Answered => phase@ is Answered,
        },
{
}

/// What was read of an event is seen whole.
pub proof fn inputs_are_seen_whole(input: TranscriptionInput)
    ensures
        match input {
            TranscriptionInput::NoBody => input@ is NoBody,
            TranscriptionInput::BodyFailed(e) => input@ == InputModel::BodyFailed(e@),
            TranscriptionInput::Body(Some(f)) => input@ == InputModel::Body(Some(f@)),
            TranscriptionInput::Body(None) => input@ == InputModel::Body(None),
            TranscriptionInput::Samples(samples) => input@ == InputModel::Samples(samples@),
            TranscriptionInput::Called(Ok(t)) => input@ == InputModel::Called(Ok(t@)),
            TranscriptionInput::Called(Err(e)) => input@ == InputModel::Called(Err(e@)),
        },
{
}

} // verus!
