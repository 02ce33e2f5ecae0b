//! Realtime sessions on concrete events.

use super_stt_backend_mistral::audio_append_json;
use super_stt_backend_mistral::events::{read_message, Event, Fields, Frame, WireEvent};
use super_stt_backend_mistral::frames::event_type;
use super_stt_backend_mistral::session::{
    advance_session, handle_upstream_event, open_session, session_expects, Phase, Request, Step,
};

fn entry(name: &str, value: &str) -> (String, Vec<u8>) {
    (name.to_string(), value.as_bytes().to_vec())
}

fn open() -> (Phase<String>, Step) {
    open_session(&[entry("x-stt-secret-mistral_api_key", "k")])
}

fn consumer(text: &str) -> WireEvent {
    Event::Consumer(Frame::Text(text.to_string()))
}

fn upstream(text: &str) -> WireEvent {
    Event::Upstream(Frame::Text(text.to_string()))
}

/// Advance through events, as the component does; the step of the last.
fn through(events: Vec<WireEvent>) -> (Phase<String>, Step) {
    let (mut phase, mut step) = open();
    for event in events {
        assert!(session_expects(&phase, &event));
        (phase, step) = advance_session(phase, event);
    }
    (phase, step)
}

fn handshake() -> Vec<WireEvent> {
    vec![consumer(r#"{"type":"start"}"#), Event::Connected]
}

fn audio() -> Vec<WireEvent> {
    let mut events = handshake();
    events.push(upstream(r#"{"type":"session.created"}"#));
    events
}

fn draining() -> Vec<WireEvent> {
    let mut events = audio();
    events.push(consumer(r#"{"type":"stop"}"#));
    events.push(Event::Sent);
    events.push(Event::Sent);
    events
}

fn with(mut events: Vec<WireEvent>, event: WireEvent) -> (Phase<String>, Step) {
    events.push(event);
    through(events)
}

fn error(message: &str) -> Option<String> {
    Some(format!("{{\"message\":\"{message}\",\"type\":\"error\"}}"))
}

/// The session is over, the consumer was told so, and stays open.
fn gave_up(end: (Phase<String>, Step), message: &str) {
    let (phase, step) = end;
    assert!(matches!(phase, Phase::Finished));
    assert_eq!(step.notify, error(message));
    assert!(!step.close);
    assert!(matches!(step.request, Request::Finish));
}

/// The session is over, the consumer was told how it came out, and is closed.
fn concluded(end: (Phase<String>, Step), notify: &str) {
    let (phase, step) = end;
    assert!(matches!(phase, Phase::Finished));
    assert_eq!(step.notify.as_deref(), Some(notify));
    assert!(step.close);
    assert!(matches!(step.request, Request::Finish));
    assert!(!session_expects(&phase, &Event::Sent));
}

#[test]
fn no_key_no_session() {
    gave_up(
        open_session(&[entry("x-stt-model", "m")]),
        "missing mistral api key",
    );
}

#[test]
fn the_start_frame_connects() {
    let (_, step) = open();
    assert!(matches!(step.request, Request::RecvConsumer));
    assert_eq!(step.notify, None);
    let (_, step) = through(vec![consumer(r#"{"type":"start","sample_rate":1}"#)]);
    match step.request {
        Request::Connect { url, headers } => {
            assert_eq!(
                url,
                "wss://api.mistral.ai/v1/audio/transcriptions/realtime?model=voxtral-mini-transcribe-realtime-2602"
            );
            assert_eq!(headers, vec![entry("authorization", "Bearer k")]);
        }
        _ => panic!("not connecting"),
    }
}

#[test]
fn the_headers_name_the_endpoint_and_the_key() {
    let (phase, _) = open_session(&[
        entry("X-STT-Option-Base_URL", "http://127.0.0.1:9/"),
        entry("X-STT-Secret-Mistral_API_Key", "caf\u{e9}"),
        entry("X-STT-Model", "m"),
    ]);
    let (_, step) = advance_session(phase, consumer(r#"{"type":"start"}"#));
    match step.request {
        Request::Connect { url, headers } => {
            assert_eq!(url, "ws://127.0.0.1:9/v1/audio/transcriptions/realtime?model=m");
            assert_eq!(headers, vec![entry("authorization", "Bearer caf\u{e9}")]);
        }
        _ => panic!("not connecting"),
    }
}

#[test]
fn sessions_see_the_type_that_the_parser_does() {
    for raw in [r#"{"type":"start"}"#, r#"{"type":1}"#, "{}", "[]", "noise"] {
        let seen = read_message(raw.to_string()).fields.and_then(|f| f.kind);
        assert_eq!(seen, event_type(raw));
    }
}

#[test]
fn other_first_frames_are_refused() {
    gave_up(through(vec![consumer("not json")]), "invalid start frame");
    gave_up(
        through(vec![consumer(r#"{"type":"stop"}"#)]),
        "invalid start frame",
    );
    gave_up(
        through(vec![Event::Consumer(Frame::Binary(vec![1]))]),
        "audio before start frame",
    );
    let (phase, step) = through(vec![Event::Consumer(Frame::Close)]);
    assert!(matches!(phase, Phase::Finished));
    assert_eq!(step.notify, None);
    assert!(matches!(step.request, Request::Finish));
    let (_, step) = through(vec![Event::ConsumerFailed]);
    assert_eq!(step.notify, None);
    assert!(matches!(step.request, Request::Fail));
}

#[test]
fn the_handshake_waits_for_the_session() {
    for chatter in [
        upstream("noise"),
        upstream(r#"{"type":"hello"}"#),
        Event::Upstream(Frame::Binary(vec![])),
    ] {
        let (phase, step) = with(handshake(), chatter);
        assert!(matches!(phase, Phase::Handshake));
        assert!(matches!(step.request, Request::RecvUpstream));
    }
    let (phase, step) = through(audio());
    assert!(matches!(phase, Phase::Audio));
    assert!(matches!(step.request, Request::RecvConsumer));
}

#[test]
fn the_handshake_can_fail() {
    gave_up(
        through(vec![
            consumer(r#"{"type":"start"}"#),
            Event::ConnectFailed("Refused".to_string()),
        ]),
        "upstream connect failed: Refused",
    );
    gave_up(
        with(handshake(), upstream(r#"{"type":"error"}"#)),
        r#"upstream error: {\"type\":\"error\"}"#,
    );
    for end in [
        Event::Upstream(Frame::Close),
        Event::UpstreamClosed,
        Event::UpstreamFailed("x".to_string()),
    ] {
        gave_up(with(handshake(), end), "upstream closed during handshake");
    }
}

#[test]
fn audio_is_forwarded_in_order_then_flushed_and_ended() {
    let events = vec![
        Event::Consumer(Frame::Binary(vec![1, 2])),
        Event::Sent,
        consumer(r#"{"type":"unknown"}"#),
        Event::Consumer(Frame::Binary(vec![3])),
        Event::Sent,
        consumer(r#"{"type":"stop"}"#),
        Event::Sent,
        Event::Sent,
    ];
    let mut sent = Vec::new();
    let (mut phase, mut step) = through(audio());
    for event in events {
        assert_eq!(step.notify, None);
        (phase, step) = advance_session(phase, event);
        if let Request::SendUpstream(text) = &step.request {
            sent.push(text.clone());
        }
    }
    assert_eq!(
        sent,
        vec![
            audio_append_json(&[1, 2]),
            audio_append_json(&[3]),
            r#"{"type":"input_audio.flush"}"#.to_string(),
            r#"{"type":"input_audio.end"}"#.to_string(),
        ]
    );
    assert!(matches!(phase, Phase::Draining { .. }));
    assert!(matches!(step.request, Request::RecvUpstream));
}

#[test]
fn a_consumer_that_closes_is_finalized() {
    let (phase, step) = with(audio(), Event::Consumer(Frame::Close));
    assert!(matches!(phase, Phase::Flushing));
    assert!(matches!(step.request, Request::SendUpstream(_)));
    let (_, step) = with(audio(), Event::ConsumerFailed);
    assert!(matches!(step.request, Request::Fail));
}

#[test]
fn sending_can_fail() {
    let fails = || Event::SendFailed("Broken".to_string());
    let mut events = audio();
    events.push(Event::Consumer(Frame::Binary(vec![0])));
    gave_up(with(events, fails()), "upstream send failed: Broken");
    let mut events = audio();
    events.push(consumer(r#"{"type":"stop"}"#));
    gave_up(with(events, fails()), "flush/end failed: Broken");
    let mut events = audio();
    events.push(consumer(r#"{"type":"stop"}"#));
    events.push(Event::Sent);
    gave_up(with(events, fails()), "flush/end failed: Broken");
}

#[test]
fn deltas_accumulate_into_previews() {
    let mut events = draining();
    events.push(upstream(r#"{"type":"transcription.text.delta","text":" hello"}"#));
    let (_, step) = with(
        events,
        upstream(r#"{"type":"transcription.text.delta","text":" world "}"#),
    );
    assert_eq!(
        step.notify.as_deref(),
        Some(r#"{"text":"hello world","type":"preview"}"#)
    );
    assert!(!step.close);
    assert!(matches!(step.request, Request::RecvUpstream));
}

#[test]
fn the_final_text_wins_over_the_deltas() {
    let delta = r#"{"type":"transcription.text.delta","text":" part "}"#;
    let mut events = draining();
    events.push(upstream(delta));
    concluded(
        with(
            events,
            upstream(r#"{"type":"transcription.done","text":" whole "}"#),
        ),
        r#"{"transcription":" whole ","type":"done"}"#,
    );
    let mut events = draining();
    events.push(upstream(delta));
    concluded(
        with(events, upstream(r#"{"type":"transcription.done"}"#)),
        r#"{"transcription":"part","type":"done"}"#,
    );
}

#[test]
fn a_closing_upstream_loses_nothing() {
    for end in [Event::Upstream(Frame::Close), Event::UpstreamClosed] {
        let mut events = draining();
        events.push(upstream(r#"{"type":"transcription.text.delta","text":"so far"}"#));
        concluded(
            with(events, end),
            r#"{"transcription":"so far","type":"done"}"#,
        );
    }
    concluded(
        with(draining(), Event::UpstreamFailed("Io".to_string())),
        r#"{"message":"upstream recv failed: Io","type":"error"}"#,
    );
}

#[test]
fn upstream_errors_are_passed_on() {
    for (event, message) in [
        (r#"{"type":"error","error":{"message":"a"},"message":"b"}"#, "a"),
        (r#"{"type":"error","error":{},"message":"b"}"#, "b"),
        (r#"{"type":"error","message":"b"}"#, "b"),
        (
            r#"{"type":"error","error":{"message":1},"message":"b"}"#,
            "upstream error",
        ),
        (r#"{"type":"error"}"#, "upstream error"),
    ] {
        concluded(
            with(draining(), upstream(event)),
            &error(message).unwrap(),
        );
    }
}

#[test]
fn other_events_are_ignored_while_draining() {
    for event in [
        upstream("noise"),
        upstream("{}"),
        upstream(r#"{"type":"transcription.text.delta"}"#),
        upstream(r#"{"type":"unknown","text":"x"}"#),
        Event::Upstream(Frame::Binary(vec![1])),
    ] {
        let (phase, step) = with(draining(), event);
        match phase {
            Phase::Draining { accumulated } => assert_eq!(accumulated, ""),
            _ => panic!("not draining"),
        }
        assert_eq!(step.notify, None);
    }
}

#[test]
fn sessions_expect_only_what_they_asked_for() {
    let (phase, _) = open();
    assert!(!session_expects(&phase, &Event::Connected));
    assert!(!session_expects(&phase, &Event::UpstreamClosed));
    let (phase, _) = through(audio());
    assert!(!session_expects(&phase, &Event::Sent));
    assert!(session_expects(
        &phase,
        &Event::Consumer(Frame::Binary(vec![0; 100]))
    ));
    let (phase, _) = through(draining());
    assert!(!session_expects(&phase, &Event::Consumer(Frame::Close)));
}

#[test]
fn messages_are_read_field_by_field() {
    let message = read_message(r#"{"type":"t","text":"x","error":{"message":"e"}}"#.to_string());
    let fields = message.fields.unwrap();
    assert_eq!(fields.kind.as_deref(), Some("t"));
    assert_eq!(fields.text.as_deref(), Some("x"));
    assert_eq!(fields.failure.as_deref(), Some("e"));
    assert!(read_message("[".to_string()).fields.is_none());
    let (_, step) = handle_upstream_event(
        "acc".to_string(),
        Fields {
            kind: Some("transcription.done".to_string()),
            text: None,
            failure: None,
        },
    );
    assert_eq!(
        step.notify.as_deref(),
        Some(r#"{"transcription":"acc","type":"done"}"#)
    );
}
