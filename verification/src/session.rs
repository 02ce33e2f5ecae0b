//! The course of a realtime session.
//!
//! A session bridges a consumer's WebSocket to Mistral's realtime API. It is
//! half-duplex: it forwards all audio of the consumer first, then drains the
//! transcript events of the upstream. [`open_session`] and [`advance_session`]
//! decide what to do next; [`opening`] and [`reaction`] say what they decide.

use crate::armor::base64_len;
use crate::events::event_read;
use crate::events::read_event;
use crate::events::Event;
use crate::events::Fields;
use crate::events::Frame;
use crate::events::Message;
use crate::events::ReadEvent;
use crate::events::ReadModel;
use crate::events::WireEvent;
use crate::frames::audio_append_fields;
use crate::frames::audio_append_json;
use crate::frames::borrowed;
use crate::frames::done_fields;
use crate::frames::done_json;
use crate::frames::error_fields;
use crate::frames::error_json;
use crate::frames::is_text;
use crate::frames::preview_fields;
use crate::frames::preview_json;
use crate::headers::bearer;
use crate::headers::bearer_header;
use crate::headers::header_list;
use crate::headers::or_default;
use crate::headers::settings;
use crate::headers::settings_in;
use crate::headers::text_or;
use crate::json::object_text;
use crate::json::text_contents;
use crate::json::text_object;
use crate::text::optional_string;
use crate::text::trim;
use crate::text::trimmed;
use crate::url::realtime_endpoint;
use crate::url::ws_url;
use vstd::pervasive::unreached;
use vstd::prelude::*;
use vstd::string::StringExecFns;

verus! {

/// The model of a session that names none.
pub const REALTIME_MODEL: &'static str = "voxtral-mini-transcribe-realtime-2602";

/// The frame that flushes the audio sent so far.
pub const INPUT_AUDIO_FLUSH: &'static str = "{\"type\":\"input_audio.flush\"}";

/// The frame that ends the audio.
pub const INPUT_AUDIO_END: &'static str = "{\"type\":\"input_audio.end\"}";

/// How far a session is; `T` is text.
pub enum Phase<T> {
    /// The consumer's `start` frame is awaited.
    AwaitStart { url: T, api_key: T },
    /// The upstream is being connected.
    Connecting,
    /// The upstream's `session.created` event is awaited.
    Handshake,
    /// A frame of the consumer is awaited.
    Audio,
    /// Audio is being sent upstream.
    Forwarding,
    /// The flush is being sent upstream.
    Flushing,
    /// The end of the audio is being sent upstream.
    Ending,
    /// A transcript event is awaited; the transcript so far.
    Draining { accumulated: T },
    /// The session is over.
    Finished,
}

/// Work that a session asks for.
pub enum Request {
    /// Receive a frame of the consumer.
    RecvConsumer,
    /// Connect the upstream, with these headers.
    Connect { url: String, headers: Vec<(String, Vec<u8>)> },
    /// Receive a frame of the upstream.
    RecvUpstream,
    /// Send this text to the upstream.
    SendUpstream(String),
    /// End the session.
    Finish,
    /// End the session with the error that receiving from the consumer gave.
    Fail,
}

/// What to do next: send the consumer a text, close the consumer, and then see
/// to the request. Whether the text arrives and the closing succeeds makes no
/// difference.
pub struct Step {
    pub notify: Option<String>,
    pub close: bool,
    pub request: Request,
}

/// What the consumer is told.
pub enum Notice {
    Preview(Seq<char>),
    Done(Seq<char>),
    Error(Seq<char>),
}

/// What the upstream is sent.
pub enum Sending {
    Audio(Seq<u8>),
    Flush,
    End,
}

/// Work that a session asks for, as plain values.
pub enum Work {
    RecvConsumer,
    Connect { url: Seq<char>, headers: Seq<(Seq<char>, Seq<u8>)> },
    RecvUpstream,
    SendUpstream(Sending),
    Finish,
    Fail,
}

/// What to do next, as plain values.
pub struct StepModel {
    pub notice: Option<Notice>,
    pub close: bool,
    pub work: Work,
}

impl View for Phase<String> {
    type V = Phase<Seq<char>>;

    open spec fn view(&self) -> Phase<Seq<char>> {
        match self {
            Phase::AwaitStart { url, api_key } => Phase::AwaitStart {
                url: url@,
                api_key: api_key@,
            },
            Phase::Connecting => Phase::Connecting,
            Phase::Handshake => Phase::Handshake,
            Phase::Audio => Phase::Audio,
            Phase::Forwarding => Phase::Forwarding,
            Phase::Flushing => Phase::Flushing,
            Phase::Ending => Phase::Ending,
            Phase::Draining { accumulated } => Phase::Draining { accumulated: accumulated@ },
            Phase::Finished => Phase::Finished,
        }
    }
}

/// The fields of the frame that tells the consumer something.
pub open spec fn notice_fields(notice: Notice) -> Seq<(Seq<char>, Seq<char>)> {
    match notice {
        Notice::Preview(text) => preview_fields(text),
        Notice::Done(text) => done_fields(text),
        Notice::Error(message) => error_fields(message),
    }
}

/// The text that the upstream is sent.
pub open spec fn sending_text(sending: Sending) -> Seq<char> {
    match sending {
        Sending::Audio(pcm) => object_text(audio_append_fields(pcm)),
        Sending::Flush => INPUT_AUDIO_FLUSH@,
        Sending::End => INPUT_AUDIO_END@,
    }
}

/// Whether a request asks for that work.
pub open spec fn requests(request: Request, work: Work) -> bool {
    match (request, work) {
        (Request::RecvConsumer, Work::RecvConsumer) => true,
        (Request::Connect { url, headers }, Work::Connect { url: u, headers: h }) => url@ == u
            && header_list(headers@) == h,
        (Request::RecvUpstream, Work::RecvUpstream) => true,
        (Request::SendUpstream(text), Work::SendUpstream(sending)) => {
            &&& text@ == sending_text(sending)
            &&& sending matches Sending::Audio(pcm) ==> text_contents(text@) == Some(
                text_object(audio_append_fields(pcm)),
            )
        },
        (Request::Finish, Work::Finish) => true,
        (Request::Fail, Work::Fail) => true,
        _ => false,
    }
}

/// Whether a text tells the consumer that, and reads back as such.
pub open spec fn tells(text: Seq<char>, notice: Notice) -> bool {
    &&& text == object_text(notice_fields(notice))
    &&& text_contents(text) == Some(text_object(notice_fields(notice)))
}

/// Whether a step is that.
pub open spec fn realises(step: Step, model: StepModel) -> bool {
    &&& match (step.notify, model.notice) {
        (Some(text), Some(notice)) => tells(text@, notice),
        (None, None) => true,
        _ => false,
    }
    &&& step.close == model.close
    &&& requests(step.request, model.work)
}

/// A step that only asks for work.
pub open spec fn ask(work: Work) -> StepModel {
    StepModel { notice: None, close: false, work }
}

/// The end of a session that tells the consumer of an error and leaves the
/// connection to it open.
pub open spec fn give_up(message: Seq<char>) -> (Phase<Seq<char>>, StepModel) {
    (
        Phase::Finished,
        StepModel { notice: Some(Notice::Error(message)), close: false, work: Work::Finish },
    )
}

/// The end of a session that tells the consumer how it came out, and closes.
pub open spec fn conclude(notice: Notice) -> (Phase<Seq<char>>, StepModel) {
    (Phase::Finished, StepModel { notice: Some(notice), close: true, work: Work::Finish })
}

/// The `type` of a message, if it is JSON that has one.
pub open spec fn message_kind(message: Message<Seq<char>>) -> Option<Seq<char>> {
    match message.fields {
        Some(fields) => fields.kind,
        None => None,
    }
}

/// How a session begins.
pub open spec fn opening(list: Seq<(Seq<char>, Seq<u8>)>) -> (Phase<Seq<char>>, StepModel) {
    match settings_in(list) {
        Some(s) => (
            Phase::AwaitStart {
                url: realtime_endpoint(s.base_url, text_or(s.model, REALTIME_MODEL@)),
                api_key: s.api_key,
            },
            ask(Work::RecvConsumer),
        ),
        None => give_up("missing mistral api key"@),
    }
}

/// What the first frame of the consumer leads to.
pub open spec fn start_reaction(
    url: Seq<char>,
    api_key: Seq<char>,
    frame: Frame<Message<Seq<char>>, Seq<u8>>,
) -> (Phase<Seq<char>>, StepModel) {
    match frame {
        Frame::Text(message) => if message_kind(message) == Some("start"@) {
            (Phase::Connecting, ask(Work::Connect { url, headers: seq![bearer_header(api_key)] }))
        } else {
            give_up("invalid start frame"@)
        },
        Frame::Close => (Phase::Finished, ask(Work::Finish)),
        Frame::Binary(_) => give_up("audio before start frame"@),
    }
}

/// What a frame of the upstream leads to before the session is created.
pub open spec fn handshake_reaction(frame: Frame<Message<Seq<char>>, Seq<u8>>) -> (
    Phase<Seq<char>>,
    StepModel,
) {
    match frame {
        Frame::Text(message) => if message_kind(message) == Some("session.created"@) {
            (Phase::Audio, ask(Work::RecvConsumer))
        } else if message_kind(message) == Some("error"@) {
            give_up("upstream error: "@ + message.raw)
        } else {
            (Phase::Handshake, ask(Work::RecvUpstream))
        },
        Frame::Binary(_) => (Phase::Handshake, ask(Work::RecvUpstream)),
        Frame::Close => give_up("upstream closed during handshake"@),
    }
}

/// What a frame of the consumer leads to while audio is forwarded.
pub open spec fn audio_reaction(frame: Frame<Message<Seq<char>>, Seq<u8>>) -> (
    Phase<Seq<char>>,
    StepModel,
) {
    match frame {
        Frame::Binary(pcm) => (Phase::Forwarding, ask(Work::SendUpstream(Sending::Audio(pcm)))),
        Frame::Text(message) => if message_kind(message) == Some("stop"@) {
            (Phase::Flushing, ask(Work::SendUpstream(Sending::Flush)))
        } else {
            (Phase::Audio, ask(Work::RecvConsumer))
        },
        Frame::Close => (Phase::Flushing, ask(Work::SendUpstream(Sending::Flush))),
    }
}

/// What a transcript event of the upstream leads to.
pub open spec fn transcript_reaction(accumulated: Seq<char>, fields: Fields<Seq<char>>) -> (
    Phase<Seq<char>>,
    StepModel,
) {
    if fields.kind == Some("error"@) {
        conclude(
            Notice::Error(
                match fields.failure {
                    Some(message) => message,
                    None => "upstream error"@,
                },
            ),
        )
    } else if fields.kind == Some("transcription.done"@) {
        conclude(
            Notice::Done(
                match fields.text {
                    Some(text) => text,
                    None => trimmed(accumulated),
                },
            ),
        )
    } else if fields.kind == Some("transcription.text.delta"@) && fields.text is Some {
        let longer = accumulated + fields.text->0;
        (
            Phase::Draining { accumulated: longer },
            StepModel {
                notice: Some(Notice::Preview(trimmed(longer))),
                close: false,
                work: Work::RecvUpstream,
            },
        )
    } else {
        (Phase::Draining { accumulated }, ask(Work::RecvUpstream))
    }
}

/// What a frame of the upstream leads to while transcript events are drained.
pub open spec fn drain_reaction(
    accumulated: Seq<char>,
    frame: Frame<Message<Seq<char>>, Seq<u8>>,
) -> (Phase<Seq<char>>, StepModel) {
    match frame {
        Frame::Text(message) => match message.fields {
            Some(fields) => transcript_reaction(accumulated, fields),
            None => (Phase::Draining { accumulated }, ask(Work::RecvUpstream)),
        },
        Frame::Binary(_) => (Phase::Draining { accumulated }, ask(Work::RecvUpstream)),
        Frame::Close => conclude(Notice::Done(trimmed(accumulated))),
    }
}

/// What an event leads to, where it comes of the work that was asked for.
pub open spec fn reaction(phase: Phase<Seq<char>>, event: ReadModel) -> (
    Phase<Seq<char>>,
    StepModel,
) {
    match (phase, event) {
        (Phase::AwaitStart { url, api_key }, Event::Consumer(frame)) => start_reaction(
            url,
            api_key,
            frame,
        ),
        (Phase::AwaitStart { .. }, Event::ConsumerFailed) => (Phase::Finished, ask(Work::Fail)),
        (Phase::Connecting, Event::Connected) => (Phase::Handshake, ask(Work::RecvUpstream)),
        (Phase::Connecting, Event::ConnectFailed(e)) => give_up("upstream connect failed: "@ + e),
        (Phase::Handshake, Event::Upstream(frame)) => handshake_reaction(frame),
        (Phase::Handshake, Event::UpstreamClosed) => give_up("upstream closed during handshake"@),
        (Phase::Handshake, Event::UpstreamFailed(_)) => give_up(
            "upstream closed during handshake"@,
        ),
        (Phase::Audio, Event::Consumer(frame)) => audio_reaction(frame),
        (Phase::Audio, Event::ConsumerFailed) => (Phase::Finished, ask(Work::Fail)),
        (Phase::Forwarding, Event::Sent) => (Phase::Audio, ask(Work::RecvConsumer)),
        (Phase::Forwarding, Event::SendFailed(e)) => give_up("upstream send failed: "@ + e),
        (Phase::Flushing, Event::Sent) => (Phase::Ending, ask(Work::SendUpstream(Sending::End))),
        (Phase::Flushing, Event::SendFailed(e)) => give_up("flush/end failed: "@ + e),
        (Phase::Ending, Event::Sent) => (
            Phase::Draining { accumulated: Seq::empty() },
            ask(Work::RecvUpstream),
        ),
        (Phase::Ending, Event::SendFailed(e)) => give_up("flush/end failed: "@ + e),
        (Phase::Draining { accumulated }, Event::Upstream(frame)) => drain_reaction(
            accumulated,
            frame,
        ),
        (Phase::Draining { accumulated }, Event::UpstreamClosed) => conclude(
            Notice::Done(trimmed(accumulated)),
        ),
        (Phase::Draining { accumulated }, Event::UpstreamFailed(e)) => conclude(
            Notice::Error("upstream recv failed: "@ + e),
        ),
        _ => arbitrary(),
    }
}

/// Whether an event is what comes of the work that was asked for. Audio whose
/// base64 text would not fit in memory is left out.
pub open spec fn answers<M>(
    phase: Phase<Seq<char>>,
    event: Event<M, Seq<char>, Seq<u8>>,
) -> bool {
    match phase {
        Phase::AwaitStart { .. } => event is Consumer || event is ConsumerFailed,
        Phase::Connecting => event is Connected || event is ConnectFailed,
        Phase::Handshake => event is Upstream || event is UpstreamClosed || event is UpstreamFailed,
        Phase::Audio => match event {
            Event::Consumer(Frame::Binary(pcm)) => base64_len(pcm.len()) <= isize::MAX,
            Event::Consumer(_) => true,
            Event::ConsumerFailed => true,
            _ => false,
        },
        Phase::Forwarding => event is Sent || event is SendFailed,
        Phase::Flushing => event is Sent || event is SendFailed,
        Phase::Ending => event is Sent || event is SendFailed,
        Phase::Draining { .. } => event is Upstream || event is UpstreamClosed
            || event is UpstreamFailed,
        Phase::Finished => false,
    }
}

/// Whether `n` bytes of audio have a base64 text that fits in memory.
fn audio_fits(n: usize) -> (r: bool)
    ensures
        r == (base64_len(n as nat) <= isize::MAX),
{
    let groups: usize = if n % 3 == 0 {
        n / 3
    } else {
        n / 3 + 1
    };
    groups <= isize::MAX as usize / 4
}

/// Whether an event is what comes of the work that was asked for.
pub fn session_expects(phase: &Phase<String>, event: &WireEvent) -> (r: bool)
    ensures
        r == answers(phase@, event@),
{
    match (phase, event) {
        (Phase::AwaitStart { .. }, Event::Consumer(_)) => true,
        (Phase::AwaitStart { .. }, Event::ConsumerFailed) => true,
        (Phase::Connecting, Event::Connected) => true,
        (Phase::Connecting, Event::ConnectFailed(_)) => true,
        (Phase::Handshake, Event::Upstream(_)) => true,
        (Phase::Handshake, Event::UpstreamClosed) => true,
        (Phase::Handshake, Event::UpstreamFailed(_)) => true,
        (Phase::Audio, Event::Consumer(Frame::Binary(pcm))) => audio_fits(pcm.len()),
        (Phase::Audio, Event::Consumer(_)) => true,
        (Phase::Audio, Event::ConsumerFailed) => true,
        (Phase::Forwarding, Event::Sent) => true,
        (Phase::Forwarding, Event::SendFailed(_)) => true,
        (Phase::Flushing, Event::Sent) => true,
        (Phase::Flushing, Event::SendFailed(_)) => true,
        (Phase::Ending, Event::Sent) => true,
        (Phase::Ending, Event::SendFailed(_)) => true,
        (Phase::Draining { .. }, Event::Upstream(_)) => true,
        (Phase::Draining { .. }, Event::UpstreamClosed) => true,
        (Phase::Draining { .. }, Event::UpstreamFailed(_)) => true,
        _ => false,
    }
}

/// A step that only asks for work.
fn just(request: Request) -> (r: Step)
    ensures
        r == (Step { notify: None, close: false, request }),
{
    Step { notify: None, close: false, request }
}

/// The end of a session that tells the consumer of an error.
fn abandon(message: &str) -> (r: (Phase<String>, Step))
    ensures
        r.0@ == give_up(message@).0,
        realises(r.1, give_up(message@).1),
{
    (
        Phase::Finished,
        Step { notify: Some(error_json(message)), close: false, request: Request::Finish },
    )
}

/// The end of a session that tells the consumer of an error and its reason.
fn abandon_because(what: &str, reason: &str) -> (r: (Phase<String>, Step))
    ensures
        r.0@ == give_up(what@ + reason@).0,
        realises(r.1, give_up(what@ + reason@).1),
{
    let mut message = what.to_string();
    message.append(reason);
    abandon(message.as_str())
}

/// The end of a session that gives the consumer the transcript, and closes.
fn conclude_done(text: &str) -> (r: (Phase<String>, Step))
    ensures
        r.0@ == conclude(Notice::Done(text@)).0,
        realises(r.1, conclude(Notice::Done(text@)).1),
{
    (
        Phase::Finished,
        Step { notify: Some(done_json(text)), close: true, request: Request::Finish },
    )
}

/// The end of a session that tells the consumer of an error, and closes.
fn conclude_error(message: &str) -> (r: (Phase<String>, Step))
    ensures
        r.0@ == conclude(Notice::Error(message@)).0,
        realises(r.1, conclude(Notice::Error(message@)).1),
{
    (
        Phase::Finished,
        Step { notify: Some(error_json(message)), close: true, request: Request::Finish },
    )
}

/// Whether a message is JSON of that `type`.
fn has_kind(message: &Message<String>, want: &str) -> (r: bool)
    ensures
        r == (message_kind(message@) == Some(want@)),
{
    match &message.fields {
        Some(fields) => is_text(borrowed(&fields.kind), want),
        None => false,
    }
}

/// Begin a session: read the injected secret/option headers.
pub fn open_session(entries: &[(String, Vec<u8>)]) -> (r: (Phase<String>, Step))
    ensures
        r.0@ == opening(header_list(entries@)).0,
        realises(r.1, opening(header_list(entries@)).1),
{
    match settings(entries) {
        Some(s) => {
            let model = or_default(s.model, REALTIME_MODEL);
            (
                Phase::AwaitStart {
                    url: ws_url(s.base_url.as_str(), model.as_str()),
                    api_key: s.api_key,
                },
                just(Request::RecvConsumer),
            )
        },
        None => abandon("missing mistral api key"),
    }
}

/// Read and validate the consumer's `start` frame. Mistral needs no session
/// config (the model is in the URL and PCM s16le/16 kHz is assumed), so the
/// frame's fields are not forwarded upstream.
pub fn await_start(
    url: String,
    api_key: String,
    frame: Frame<Message<String>, Vec<u8>>,
) -> (r: (Phase<String>, Step))
    ensures
        r.0@ == start_reaction(url@, api_key@, frame@).0,
        realises(r.1, start_reaction(url@, api_key@, frame@).1),
{
    match frame {
        Frame::Text(message) => if has_kind(&message, "start") {
            let headers: Vec<(String, Vec<u8>)> = vec![bearer(api_key.as_str())];
            proof {
                assert(header_list(headers@) =~= seq![bearer_header(api_key@)]);
            }
            (Phase::Connecting, just(Request::Connect { url, headers }))
        } else {
            abandon("invalid start frame")
        },
        Frame::Close => (Phase::Finished, just(Request::Finish)),
        Frame::Binary(_) => abandon("audio before start frame"),
    }
}

/// Read upstream until Mistral's `session.created` handshake event. The session
/// is over (and the consumer notified) if the upstream errors or closes before
/// the session is ready.
pub fn await_session_created(frame: Frame<Message<String>, Vec<u8>>) -> (r: (Phase<String>, Step))
    ensures
        r.0@ == handshake_reaction(frame@).0,
        realises(r.1, handshake_reaction(frame@).1),
{
    match frame {
        Frame::Text(message) => if has_kind(&message, "session.created") {
            (Phase::Audio, just(Request::RecvConsumer))
        } else if has_kind(&message, "error") {
            abandon_because("upstream error: ", message.raw.as_str())
        } else {
            // ignore other handshake chatter
            (Phase::Handshake, just(Request::RecvUpstream))
        },
        Frame::Binary(_) => (Phase::Handshake, just(Request::RecvUpstream)),
        Frame::Close => abandon("upstream closed during handshake"),
    }
}

/// Forward the consumer's audio to the upstream, until it stops or closes.
pub fn forward_audio(frame: Frame<Message<String>, Vec<u8>>) -> (r: (Phase<String>, Step))
    requires
        frame@ matches Frame::Binary(pcm) ==> base64_len(pcm.len()) <= isize::MAX,
    ensures
        r.0@ == audio_reaction(frame@).0,
        realises(r.1, audio_reaction(frame@).1),
{
    match frame {
        Frame::Binary(pcm) => (
            Phase::Forwarding,
            just(Request::SendUpstream(audio_append_json(pcm.as_slice()))),
        ),
        Frame::Text(message) => if has_kind(&message, "stop") {
            (Phase::Flushing, just(Request::SendUpstream(INPUT_AUDIO_FLUSH.to_string())))
        } else {
            // ignore unknown control frames
            (Phase::Audio, just(Request::RecvConsumer))
        },
        // consumer done; finalize what we have
        Frame::Close => (
            Phase::Flushing,
            just(Request::SendUpstream(INPUT_AUDIO_FLUSH.to_string())),
        ),
    }
}

/// Handle one upstream JSON event: the session is complete on a
/// `transcription.done` or `error` event, and goes on draining else.
pub fn handle_upstream_event(accumulated: String, fields: Fields<String>) -> (r: (
    Phase<String>,
    Step,
))
    ensures
        r.0@ == transcript_reaction(accumulated@, fields@).0,
        realises(r.1, transcript_reaction(accumulated@, fields@).1),
        optional_string(fields.kind) == Some("transcription.text.delta"@) ==> (
        fields.text matches Some(delta) ==> {
            &&& r.0 matches Phase::Draining { accumulated: longer }
            &&& longer@ == accumulated@ + delta@
            &&& r.1.notify matches Some(text)
            &&& text@ == object_text(preview_fields(trimmed(accumulated@ + delta@)))
        }),
{
    proof {
        reveal_strlit("error");
        reveal_strlit("transcription.done");
        reveal_strlit("transcription.text.delta");
        assert("error"@.len() != "transcription.text.delta"@.len());
        assert("transcription.done"@.len() != "transcription.text.delta"@.len());
    }
    if is_text(borrowed(&fields.kind), "error") {
        return match fields.failure {
            Some(message) => conclude_error(message.as_str()),
            None => conclude_error("upstream error"),
        };
    }
    if is_text(borrowed(&fields.kind), "transcription.done") {
        return match fields.text {
            Some(text) => conclude_done(text.as_str()),
            None => conclude_done(trim(accumulated.as_str())),
        };
    }
    if is_text(borrowed(&fields.kind), "transcription.text.delta") {
        if let Some(delta) = fields.text {
            let mut longer = accumulated;
            longer.append(delta.as_str());
            let preview = preview_json(trim(longer.as_str()));
            return (
                Phase::Draining { accumulated: longer },
                Step { notify: Some(preview), close: false, request: Request::RecvUpstream },
            );
        }
    }
    (Phase::Draining { accumulated }, just(Request::RecvUpstream))
}

/// Read upstream transcript events until completion or close.
pub fn drain_upstream(accumulated: String, frame: Frame<Message<String>, Vec<u8>>) -> (r: (
    Phase<String>,
    Step,
))
    ensures
        r.0@ == drain_reaction(accumulated@, frame@).0,
        realises(r.1, drain_reaction(accumulated@, frame@).1),
{
    match frame {
        Frame::Text(message) => match message.fields {
            Some(fields) => handle_upstream_event(accumulated, fields),
            // ignore non-JSON frames
            None => (Phase::Draining { accumulated }, just(Request::RecvUpstream)),
        },
        // Mistral sends JSON text; ignore binary
        Frame::Binary(_) => (Phase::Draining { accumulated }, just(Request::RecvUpstream)),
        // Upstream closed without a completed event: emit what we have.
        Frame::Close => conclude_done(trim(accumulated.as_str())),
    }
}

/// Decide on the next step of a session.
pub fn run(phase: Phase<String>, event: ReadEvent) -> (r: (Phase<String>, Step))
    requires
        answers(phase@, event@),
    ensures
        r.0@ == reaction(phase@, event@).0,
        realises(r.1, reaction(phase@, event@).1),
{
    match (phase, event) {
        (Phase::AwaitStart { url, api_key }, Event::Consumer(frame)) => await_start(
            url,
            api_key,
            frame,
        ),
        (Phase::AwaitStart { .. }, Event::ConsumerFailed) => (
            Phase::Finished,
            just(Request::Fail),
        ),
        (Phase::Connecting, Event::Connected) => (Phase::Handshake, just(Request::RecvUpstream)),
        (Phase::Connecting, Event::ConnectFailed(e)) => abandon_because(
            "upstream connect failed: ",
            e.as_str(),
        ),
        (Phase::Handshake, Event::Upstream(frame)) => await_session_created(frame),
        (Phase::Handshake, Event::UpstreamClosed) => abandon("upstream closed during handshake"),
        (Phase::Handshake, Event::UpstreamFailed(_)) => abandon("upstream closed during handshake"),
        (Phase::Audio, Event::Consumer(frame)) => forward_audio(frame),
        (Phase::Audio, Event::ConsumerFailed) => (Phase::Finished, just(Request::Fail)),
        (Phase::Forwarding, Event::Sent) => (Phase::Audio, just(Request::RecvConsumer)),
        (Phase::Forwarding, Event::SendFailed(e)) => abandon_because(
            "upstream send failed: ",
            e.as_str(),
        ),
        (Phase::Flushing, Event::Sent) => (
            Phase::Ending,
            just(Request::SendUpstream(INPUT_AUDIO_END.to_string())),
        ),
        (Phase::Flushing, Event::SendFailed(e)) => abandon_because(
            "flush/end failed: ",
            e.as_str(),
        ),
        (Phase::Ending, Event::Sent) => (
            Phase::Draining { accumulated: String::new() },
            just(Request::RecvUpstream),
        ),
        (Phase::Ending, Event::SendFailed(e)) => abandon_because("flush/end failed: ", e.as_str()),
        (Phase::Draining { accumulated }, Event::Upstream(frame)) => drain_upstream(
            accumulated,
            frame,
        ),
        (Phase::Draining { accumulated }, Event::UpstreamClosed) => conclude_done(
            trim(accumulated.as_str()),
        ),
        (Phase::Draining { accumulated }, Event::UpstreamFailed(e)) => {
            let mut message = "upstream recv failed: ".to_string();
            message.append(e.as_str());
            conclude_error(message.as_str())
        },
        _ => unreached(),
    }
}

/// Take in what came of the work that a session asked for, and decide on its
/// next step.
pub fn advance_session(phase: Phase<String>, event: WireEvent) -> (r: (Phase<String>, Step))
    requires
        answers(phase@, event@),
    ensures
        r.0@ == reaction(phase@, event_read(event@)).0,
        realises(r.1, reaction(phase@, event_read(event@)).1),
{
    run(phase, read_event(event))
}

} // verus!
