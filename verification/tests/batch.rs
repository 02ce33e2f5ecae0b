//! The batch `/v1` contract on concrete requests.

use serde_json::Value;
use super_stt_backend_mistral::batch::{
    advance_transcription, begin_transcription, choose_model, forward_language, judge_response, read_body, route,
    status_error, transcription_expects, Method, Outgoing, Response, Routed, Transcription,
    TranscriptionAction, TranscriptionEvent,
};
use super_stt_backend_mistral::{build_multipart, encode_wav};

fn entry(name: &str, value: &str) -> (String, Vec<u8>) {
    (name.to_string(), value.as_bytes().to_vec())
}

fn keyed() -> Vec<(String, Vec<u8>)> {
    vec![
        entry("x-stt-secret-mistral_api_key", "test-key"),
        entry("x-stt-option-base_url", "http://127.0.0.1:9/"),
    ]
}

fn json(response: &Response) -> Value {
    serde_json::from_slice(&response.body).unwrap()
}

fn answer(method: Method, path: Option<&str>) -> Response {
    match route(method, path) {
        Routed::Answer(response) => response,
        Routed::Transcribe => panic!("not answered at once"),
    }
}

fn reply(action: TranscriptionAction) -> Response {
    match action {
        TranscriptionAction::Reply(response) => response,
        _ => panic!("not answered"),
    }
}

/// Advance as the component does.
fn advance(
    phase: Transcription,
    event: TranscriptionEvent,
) -> (Transcription, TranscriptionAction) {
    assert!(transcription_expects(&phase, &event));
    advance_transcription(phase, event)
}

fn after_body(body: &[u8]) -> (Transcription, TranscriptionAction) {
    let (phase, action) = begin_transcription(&keyed());
    assert!(matches!(action, TranscriptionAction::ReadBody));
    advance(phase, TranscriptionEvent::Body(body.to_vec()))
}

fn after_samples(body: &[u8], samples: &[i16]) -> (Transcription, Outgoing) {
    let (phase, action) = after_body(body);
    assert!(matches!(action, TranscriptionAction::Quantise(_)));
    match advance(phase, TranscriptionEvent::Samples(samples.to_vec())) {
        (phase, TranscriptionAction::Send(request)) => (phase, request),
        _ => panic!("nothing sent"),
    }
}

#[test]
fn ping_status_load_and_cancel() {
    let r = answer(Method::Get, Some("/v1/ping"));
    assert_eq!(r.status, 200);
    assert_eq!(r.body, br#"{"message":"pong","status":"success"}"#);

    let r = answer(Method::Get, Some("/v1/status"));
    assert_eq!(r.status, 200);
    assert_eq!(
        r.body,
        br#"{"device":"cpu","state":"ready","status":"success"}"#
    );

    let r = answer(Method::Post, Some("/v1/load"));
    assert_eq!(r.status, 202);
    assert_eq!(json(&r)["message"], "Loading started");

    let r = answer(Method::Post, Some("/v1/cancel"));
    assert_eq!(r.status, 200);
    assert_eq!(json(&r)["message"], "Cancelled");
}

#[test]
fn routing_is_by_method_and_path() {
    for (method, path) in [
        (Method::Post, Some("/v1/ping")),
        (Method::Get, Some("/v1/transcribe")),
        (Method::Other, Some("/v1/ping")),
        (Method::Get, Some("/v1/ping/")),
        (Method::Get, Some("")),
        (Method::Get, None),
    ] {
        let r = answer(method, path);
        assert_eq!(r.status, 404);
        assert_eq!(r.body, br#"{"message":"not_found","status":"error"}"#);
    }
}

#[test]
fn the_query_is_ignored() {
    assert_eq!(
        json(&answer(Method::Get, Some("/v1/ping?a=b?c")))["message"],
        "pong"
    );
    assert!(matches!(
        route(Method::Post, Some("/v1/transcribe?x")),
        Routed::Transcribe
    ));
}

#[test]
fn a_missing_key_is_refused_with_a_detail() {
    let (phase, action) = begin_transcription(&[entry("x-stt-model", "m")]);
    let r = reply(action);
    assert_eq!(r.status, 400);
    let v = json(&r);
    assert_eq!(v["status"], "error");
    assert_eq!(v["message"], "missing_secret_mistral_api_key");
    assert_eq!(
        v["detail"],
        "Mistral API key not set. Add it in Settings \u{2192} Models \u{2192} Mistral."
    );
    assert!(!transcription_expects(
        &phase,
        &TranscriptionEvent::Body(b"{}".to_vec())
    ));
}

#[test]
fn bodies_that_are_refused() {
    let (phase, _) = begin_transcription(&keyed());
    let r = reply(advance(phase, TranscriptionEvent::NoBody).1);
    assert_eq!((r.status, &json(&r)["message"]), (400, &Value::from("no_body")));

    let (phase, _) = begin_transcription(&keyed());
    let event = TranscriptionEvent::BodyFailed("read_failed".to_string());
    let r = reply(advance(phase, event).1);
    assert_eq!(
        (r.status, &json(&r)["message"]),
        (500, &Value::from("read_failed"))
    );

    let r = reply(after_body(b"{").1);
    assert_eq!(
        (r.status, &json(&r)["message"]),
        (400, &Value::from("invalid_json"))
    );

    for body in ["{}", "[]", r#"{"audio_data":"x"}"#, r#"{"audio_data":{}}"#] {
        let r = reply(after_body(body.as_bytes()).1);
        assert_eq!(
            (r.status, &json(&r)["message"]),
            (400, &Value::from("invalid_audio"))
        );
    }
}

#[test]
fn audio_is_read_as_doubles() {
    let fields = read_body(br#"{"audio_data":[0.5,-1,2,"x",null],"language":"fr"}"#).unwrap();
    let bits: Vec<u64> = [0.5f64, -1.0, 2.0, 0.0, 0.0]
        .iter()
        .map(|d| d.to_bits())
        .collect();
    assert_eq!(fields.audio, Some(bits));
    assert_eq!(fields.model, None);
    assert_eq!(fields.sample_rate, None);
    assert_eq!(fields.language, Some("fr".to_string()));
    assert!(read_body(b"no").is_none());
}

#[test]
fn a_request_is_shaped_for_mistral() {
    let body = br#"{"audio_data":[0.0,1.0],"sample_rate":8000,"language":"es"}"#;
    let (_, request) = after_samples(body, &[0, 32767]);
    assert!(matches!(request.method, Method::Post));
    assert!(!request.is_https);
    assert_eq!(request.authority, "127.0.0.1:9");
    assert_eq!(request.path, "/v1/audio/transcriptions");
    assert_eq!(
        request.headers,
        vec![
            entry("authorization", "Bearer test-key"),
            entry(
                "content-type",
                "multipart/form-data; boundary=----superstt7MA4YWxkTrZu0gW"
            ),
        ]
    );
    assert_eq!(
        request.body,
        build_multipart(
            "----superstt7MA4YWxkTrZu0gW",
            "voxtral-mini-latest",
            Some("es"),
            &encode_wav(&[0, 32767], 8000)
        )
    );
}

/// The request that goes to Mistral for a body, with a model in the headers or
/// none.
fn sent_for(header_model: Option<&str>, body: &[u8]) -> Outgoing {
    let mut headers = keyed();
    if let Some(model) = header_model {
        headers.push(entry("X-STT-Model", model));
    }
    let (phase, _) = begin_transcription(&headers);
    let (phase, _) = advance(phase, TranscriptionEvent::Body(body.to_vec()));
    match advance(phase, TranscriptionEvent::Samples(vec![7])) {
        (_, TranscriptionAction::Send(request)) => request,
        _ => panic!("nothing sent"),
    }
}

#[test]
fn the_model_of_the_body_is_used() {
    let named = br#"{"audio_data":[0.0],"model":"from-body"}"#;
    let unnamed = br#"{"audio_data":[0.0]}"#;
    let odd = br#"{"audio_data":[0.0],"model":3}"#;
    let wav = encode_wav(&[7], 16000);
    let asking_for =
        |model: &str| build_multipart("----superstt7MA4YWxkTrZu0gW", model, None, &wav);
    assert_eq!(sent_for(None, named).body, asking_for("from-body"));
    assert_eq!(
        sent_for(Some("from-header"), named).body,
        asking_for("from-header")
    );
    assert_eq!(
        sent_for(Some("from-header"), unnamed).body,
        asking_for("from-header")
    );
    assert_eq!(sent_for(None, unnamed).body, asking_for("voxtral-mini-latest"));
    assert_eq!(sent_for(None, odd).body, asking_for("voxtral-mini-latest"));
    assert_eq!(
        read_body(named).unwrap().model,
        Some("from-body".to_string())
    );
    assert_eq!(
        choose_model(None, Some("b".to_string())),
        "b".to_string()
    );
}

#[test]
fn auto_and_no_language_are_the_same() {
    let (_, auto) = after_samples(br#"{"audio_data":[],"language":"auto"}"#, &[]);
    let (_, none) = after_samples(br#"{"audio_data":[]}"#, &[]);
    assert_eq!(auto.body, none.body);
    assert_eq!(forward_language(Some("auto".to_string())), None);
    assert_eq!(
        forward_language(Some("Auto".to_string())),
        Some("Auto".to_string())
    );
    assert_eq!(forward_language(None), None);
}

#[test]
fn samples_must_match_the_audio() {
    let (phase, _) = after_body(br#"{"audio_data":[0.0]}"#);
    assert!(!transcription_expects(
        &phase,
        &TranscriptionEvent::Samples(vec![])
    ));
    assert!(transcription_expects(
        &phase,
        &TranscriptionEvent::Samples(vec![1])
    ));
}

#[test]
fn a_transcript_comes_back() {
    let (phase, _) = after_samples(br#"{"audio_data":[0.0]}"#, &[0]);
    let event = TranscriptionEvent::Responded {
        status: 200,
        body: br#"{"text":"hello world"}"#.to_vec(),
    };
    let (phase, action) = advance(phase, event);
    let r = reply(action);
    assert_eq!(r.status, 200);
    assert_eq!(
        r.body,
        br#"{"status":"success","transcription":"hello world"}"#
    );
    assert!(!transcription_expects(&phase, &TranscriptionEvent::NoBody));
}

#[test]
fn a_failed_call_is_a_bad_gateway() {
    let failures = [
        (
            TranscriptionEvent::CallFailed("no_response".to_string()),
            "no_response",
        ),
        (
            TranscriptionEvent::Responded {
                status: 401,
                body: b"a\xffb".to_vec(),
            },
            "status 401: a\u{fffd}b",
        ),
        (
            TranscriptionEvent::Responded {
                status: 299,
                body: b"{}".to_vec(),
            },
            "no_text_field",
        ),
    ];
    for (event, detail) in failures {
        let (phase, _) = after_samples(br#"{"audio_data":[0.0]}"#, &[0]);
        let r = reply(advance(phase, event).1);
        assert_eq!(r.status, 502);
        let v = json(&r);
        assert_eq!(v["status"], "error");
        assert_eq!(v["message"], "upstream_error");
        assert_eq!(v["detail"], detail);
    }
}

#[test]
fn only_a_status_in_the_two_hundreds_is_a_success() {
    let body = br#"{"text":"t"}"#;
    assert_eq!(judge_response(200, body), Ok("t".to_string()));
    assert_eq!(judge_response(299, body), Ok("t".to_string()));
    for status in [0, 199, 300, 500] {
        assert_eq!(
            judge_response(status, body),
            Err(status_error(status, r#"{"text":"t"}"#))
        );
    }
    assert_eq!(status_error(503, "down"), "status 503: down");
}
