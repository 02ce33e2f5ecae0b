//! What holds of every realtime session, whatever its consumer and its upstream
//! do.

use crate::armor::base64_text;
use crate::armor::base64_text_len;
use crate::bytes::encoding_splits;
use crate::events::event_read;
use crate::events::message_of;
use crate::events::Event;
use crate::events::Frame;
use crate::events::Message;
use crate::events::ReadModel;
use crate::events::WireModel;
use crate::frames::frames_read_back;
use crate::frames::is_stop_frame;
use crate::frames::kind_of;
use crate::frames::start_of;
use crate::headers::bearer_header;
use crate::headers::header_bytes;
use crate::headers::header_list;
use crate::headers::header_text;
use crate::headers::settings_in;
use crate::headers::text_or;
use crate::headers::API_KEY_HEADER;
use crate::json::holds;
use crate::json::text_contents;
use crate::json::Json;
use crate::session::answers;
use crate::session::ask;
use crate::session::conclude;
use crate::session::give_up;
use crate::session::message_kind;
use crate::session::opening;
use crate::session::reaction;
use crate::session::realises;
use crate::session::Notice;
use crate::session::Phase;
use crate::session::Request;
use crate::session::Sending;
use crate::session::Step;
use crate::session::StepModel;
use crate::session::Work;
use crate::session::REALTIME_MODEL;
use crate::text::trimmed;
use crate::url::realtime_endpoint;
use vstd::prelude::*;
use vstd::utf8::decode_utf8_encode_utf8;
use vstd::utf8::encode_utf8;
use vstd::utf8::valid_utf8;

verus! {

/// How far a session is after events, where it was at `first` before them.
pub open spec fn phase_after(first: Phase<Seq<char>>, events: Seq<ReadModel>) -> Phase<Seq<char>>
    decreases events.len(),
{
    if events.len() == 0 {
        first
    } else {
        reaction(phase_after(first, events.drop_last()), events.last()).0
    }
}

/// What the last of some events led to.
pub open spec fn last_step(first: Phase<Seq<char>>, events: Seq<ReadModel>) -> StepModel {
    reaction(phase_after(first, events.drop_last()), events.last()).1
}

/// Whether each event is what came of the work that was asked for before it.
pub open spec fn is_course(first: Phase<Seq<char>>, events: Seq<ReadModel>) -> bool
    decreases events.len(),
{
    events.len() > 0 ==> {
        &&& is_course(first, events.drop_last())
        &&& answers(phase_after(first, events.drop_last()), events.last())
    }
}

/// Whether an event is a text frame of the consumer of that `type`.
pub open spec fn consumer_says(event: ReadModel, kind: Seq<char>) -> bool {
    event matches Event::Consumer(Frame::Text(message)) && message_kind(message) == Some(kind)
}

/// Whether an event is a text frame of the upstream of that `type`.
pub open spec fn upstream_says(event: ReadModel, kind: Seq<char>) -> bool {
    event matches Event::Upstream(Frame::Text(message)) && message_kind(message) == Some(kind)
}

/// Whether the consumer hangs up.
pub open spec fn consumer_closes(event: ReadModel) -> bool {
    event matches Event::Consumer(frame) && frame is Close
}

/// Whether the upstream closes.
pub open spec fn upstream_closes(event: ReadModel) -> bool {
    event is UpstreamClosed || (event matches Event::Upstream(frame) && frame is Close)
}

/// Whether the session was created: the consumer started it, then the upstream
/// was connected, then it said `session.created`.
pub open spec fn was_created(events: Seq<ReadModel>) -> bool {
    exists|i: int, j: int, k: int|
        0 <= i < j < k < events.len() && #[trigger] consumer_says(events[i], "start"@)
            && #[trigger] is_connected(events[j]) && #[trigger] upstream_says(
            events[k],
            "session.created"@,
        )
}

/// Whether an event says that the upstream is connected.
pub open spec fn is_connected(event: ReadModel) -> bool {
    event is Connected
}

/// Whether the session was started by the consumer and then connected.
pub open spec fn was_connected(events: Seq<ReadModel>) -> bool {
    exists|i: int, j: int|
        0 <= i < j < events.len() && #[trigger] consumer_says(events[i], "start"@)
            && #[trigger] is_connected(events[j])
}

/// Whether the session was started by the consumer.
pub open spec fn was_started(events: Seq<ReadModel>) -> bool {
    exists|i: int| 0 <= i < events.len() && #[trigger] consumer_says(events[i], "start"@)
}

/// How far a session is tells what happened before.
proof fn phase_tells_history(first: Phase<Seq<char>>, events: Seq<ReadModel>)
    requires
        first is AwaitStart,
        is_course(first, events),
    ensures
        ({
            let p = phase_after(first, events);
            &&& p is AwaitStart ==> events.len() == 0
            &&& p is Connecting ==> was_started(events)
            &&& p is Handshake ==> was_connected(events)
            &&& p is Audio || p is Forwarding || p is Flushing || p is Ending
                || p is Draining ==> was_created(events)
        }),
    decreases events.len(),
{
    if events.len() > 0 {
        let before = events.drop_last();
        let n = before.len() as int;
        let e = events.last();
        phase_tells_history(first, before);
        let p = phase_after(first, before);
        assert(events[n] == e);
        assert(forall|i: int| 0 <= i < n ==> before[i] == events[i]);
        if p is AwaitStart {
            assert(consumer_says(events[n], "start"@) || !(phase_after(
                first,
                events,
            ) is Connecting));
        } else if p is Connecting {
            let i = choose|i: int| 0 <= i < n && #[trigger] consumer_says(before[i], "start"@);
            assert(consumer_says(events[i], "start"@));
            assert(is_connected(events[n]) == (e is Connected));
        } else if p is Handshake {
            let (i, j) = choose|i: int, j: int|
                0 <= i < j < n && #[trigger] consumer_says(before[i], "start"@)
                    && #[trigger] is_connected(before[j]);
            assert(consumer_says(events[i], "start"@));
            assert(is_connected(events[j]));
            assert(upstream_says(events[n], "session.created"@) || !(phase_after(
                first,
                events,
            ) is Audio));
        } else if !(p is Finished) {
            let (i, j, k) = choose|i: int, j: int, k: int|
                0 <= i < j < k < n && #[trigger] consumer_says(before[i], "start"@)
                    && #[trigger] is_connected(before[j]) && #[trigger] upstream_says(
                    before[k],
                    "session.created"@,
                );
            assert(consumer_says(events[i], "start"@));
            assert(is_connected(events[j]));
            assert(upstream_says(events[k], "session.created"@));
        }
    }
}

/// Nothing is sent upstream before the consumer started the session, the
/// upstream was connected, and it said `session.created`.
pub proof fn nothing_is_sent_before_the_session_is_created(
    first: Phase<Seq<char>>,
    events: Seq<ReadModel>,
)
    requires
        first is AwaitStart,
        is_course(first, events),
        events.len() > 0,
        last_step(first, events).work is SendUpstream,
    ensures
        was_created(events.drop_last()),
{
    phase_tells_history(first, events.drop_last());
}

/// The upstream is connected only for the consumer's `start` frame, which is the
/// first frame of the session, and under the address and the key that the
/// session was opened with.
pub proof fn only_a_start_frame_connects(first: Phase<Seq<char>>, events: Seq<ReadModel>)
    requires
        first is AwaitStart,
        is_course(first, events),
        events.len() > 0,
        last_step(first, events).work is Connect,
    ensures
        events.len() == 1,
        consumer_says(events[0], "start"@),
        last_step(first, events).work == (Work::Connect {
            url: first->url,
            headers: seq![bearer_header(first->api_key)],
        }),
{
    phase_tells_history(first, events.drop_last());
}

/// With an API key, a `start` frame connects the endpoint of the base URL and
/// the model that the headers name, or of the defaults. The key is the bearer
/// token of the one header that goes with it; byte for byte, where the key is
/// UTF-8.
pub proof fn a_start_frame_connects_with_the_key(
    list: Seq<(Seq<char>, Seq<u8>)>,
    message: Message<Seq<char>>,
)
    requires
        header_bytes(list, API_KEY_HEADER@) is Some,
        message_kind(message) == Some("start"@),
    ensures
        ({
            let s = settings_in(list)->0;
            let key = header_bytes(list, API_KEY_HEADER@)->0;
            let token = bearer_header(s.api_key);
            &&& reaction(opening(list).0, Event::Consumer(Frame::Text(message))) == (
                Phase::<Seq<char>>::Connecting,
                ask(
                    Work::Connect {
                        url: realtime_endpoint(s.base_url, text_or(s.model, REALTIME_MODEL@)),
                        headers: seq![token],
                    },
                ),
            )
            &&& token.0 == "authorization"@
            &&& valid_utf8(key) ==> token.1 == encode_utf8("Bearer "@) + key
        }),
{
    let key = header_bytes(list, API_KEY_HEADER@)->0;
    if valid_utf8(key) {
        decode_utf8_encode_utf8(key);
    }
}

/// What a session sends upstream over some events.
pub open spec fn sent(first: Phase<Seq<char>>, events: Seq<ReadModel>) -> Seq<Sending>
    decreases events.len(),
{
    if events.len() == 0 {
        Seq::empty()
    } else {
        let before = sent(first, events.drop_last());
        match last_step(first, events).work {
            Work::SendUpstream(sending) => before.push(sending),
            _ => before,
        }
    }
}

/// The audio that the consumer sends while it is forwarded.
pub open spec fn audio_received(first: Phase<Seq<char>>, events: Seq<ReadModel>) -> Seq<Sending>
    decreases events.len(),
{
    if events.len() == 0 {
        Seq::empty()
    } else {
        let before = audio_received(first, events.drop_last());
        match (phase_after(first, events.drop_last()), events.last()) {
            (Phase::Audio, Event::Consumer(Frame::Binary(pcm))) => before.push(Sending::Audio(pcm)),
            _ => before,
        }
    }
}

/// What follows the audio upstream, by how far the session is.
pub open spec fn closing_frames(phase: Phase<Seq<char>>) -> Seq<Sending> {
    match phase {
        Phase::Flushing => seq![Sending::Flush],
        Phase::Ending => seq![Sending::Flush, Sending::End],
        Phase::Draining { .. } => seq![Sending::Flush, Sending::End],
        _ => Seq::empty(),
    }
}

/// The upstream gets all audio of the consumer, each piece once and in order,
/// then a flush and an end, and nothing else; it has got both before transcript
/// events are drained.
pub proof fn all_audio_is_forwarded_in_order(first: Phase<Seq<char>>, events: Seq<ReadModel>)
    requires
        first is AwaitStart,
        is_course(first, events),
    ensures
        ({
            let audio = audio_received(first, events);
            let all = sent(first, events);
            &&& audio.is_prefix_of(all)
            &&& all.skip(audio.len() as int).is_prefix_of(seq![Sending::Flush, Sending::End])
            &&& !(phase_after(first, events) is Finished) ==> all == audio + closing_frames(
                phase_after(first, events),
            )
        }),
    decreases events.len(),
{
    let audio = audio_received(first, events);
    let all = sent(first, events);
    if events.len() > 0 {
        let before = events.drop_last();
        all_audio_is_forwarded_in_order(first, before);
        let p = phase_after(first, before);
        let q = phase_after(first, events);
        let a = audio_received(first, before);
        assert(sent(first, before) == a + closing_frames(p));
        if q is Finished {
            assert(audio == a);
            assert(all == a + closing_frames(p));
            sent_splits(a, closing_frames(p));
        } else {
            assert(all =~= audio + closing_frames(q));
            sent_splits(audio, closing_frames(q));
        }
    } else {
        assert(all =~= audio + closing_frames(first));
        sent_splits(audio, closing_frames(first));
    }
}

/// Audio followed by closing frames is audio first, then closing frames.
proof fn sent_splits(audio: Seq<Sending>, tail: Seq<Sending>)
    requires
        tail.len() == 0 || tail == seq![Sending::Flush] || tail == seq![
            Sending::Flush,
            Sending::End,
        ],
    ensures
        audio.is_prefix_of(audio + tail),
        (audio + tail).skip(audio.len() as int).is_prefix_of(seq![Sending::Flush, Sending::End]),
{
    let all = audio + tail;
    let both = seq![Sending::Flush, Sending::End];
    assert(all.subrange(0, audio.len() as int) =~= audio);
    assert(all.skip(audio.len() as int) =~= tail);
    assert(both.subrange(0, tail.len() as int) =~= tail);
}

/// The transcript that the deltas among the drained events make up.
pub open spec fn deltas(first: Phase<Seq<char>>, events: Seq<ReadModel>) -> Seq<char>
    decreases events.len(),
{
    if events.len() == 0 {
        Seq::empty()
    } else if phase_after(first, events.drop_last()) is Draining {
        deltas(first, events.drop_last()) + delta(events.last())
    } else {
        deltas(first, events.drop_last())
    }
}

/// The text of a delta; nothing for any other event.
pub open spec fn delta(event: ReadModel) -> Seq<char> {
    match event {
        Event::Upstream(Frame::Text(message)) => match message.fields {
            Some(fields) => if fields.kind == Some("transcription.text.delta"@) && fields.text
                is Some {
                fields.text->0
            } else {
                Seq::empty()
            },
            None => Seq::empty(),
        },
        _ => Seq::empty(),
    }
}

/// While transcript events are drained, the transcript so far is all deltas in
/// order; before, there is none.
pub proof fn transcript_is_all_deltas(first: Phase<Seq<char>>, events: Seq<ReadModel>)
    requires
        first is AwaitStart,
        is_course(first, events),
    ensures
        match phase_after(first, events) {
            Phase::Draining { accumulated } => accumulated == deltas(first, events),
            Phase::Finished => true,
            _ => deltas(first, events).len() == 0,
        },
    decreases events.len(),
{
    if events.len() > 0 {
        let before = events.drop_last();
        transcript_is_all_deltas(first, before);
        kinds_differ();
        if phase_after(first, before) is Draining && delta(events.last()).len() == 0 {
            assert(deltas(first, events) =~= deltas(first, before));
        }
        if phase_after(first, before) is Ending {
            assert(deltas(first, events) =~= Seq::empty());
        }
    }
}

/// An error, the end and a delta are three things.
proof fn kinds_differ()
    ensures
        "error"@ != "transcription.done"@,
        "error"@ != "transcription.text.delta"@,
        "transcription.done"@ != "transcription.text.delta"@,
{
    reveal_strlit("error");
    reveal_strlit("transcription.done");
    reveal_strlit("transcription.text.delta");
    assert("error"@.len() != "transcription.done"@.len());
    assert("error"@.len() != "transcription.text.delta"@.len());
    assert("transcription.done"@.len() != "transcription.text.delta"@.len());
}

/// A preview shows all deltas so far, without white space around them.
pub proof fn previews_show_all_deltas(first: Phase<Seq<char>>, events: Seq<ReadModel>)
    requires
        first is AwaitStart,
        is_course(first, events),
        events.len() > 0,
        last_step(first, events).notice matches Some(Notice::Preview(_)),
    ensures
        last_step(first, events).notice == Some(Notice::Preview(trimmed(deltas(first, events)))),
{
    transcript_is_all_deltas(first, events.drop_last());
    kinds_differ();
}

/// An upstream that closes without a `transcription.done` event loses nothing:
/// the consumer gets all deltas, without white space around them.
pub proof fn a_closing_upstream_loses_nothing(
    first: Phase<Seq<char>>,
    events: Seq<ReadModel>,
    end: ReadModel,
)
    requires
        first is AwaitStart,
        is_course(first, events),
        phase_after(first, events) is Draining,
        upstream_closes(end),
    ensures
        reaction(phase_after(first, events), end) == conclude(
            Notice::Done(trimmed(deltas(first, events))),
        ),
{
    transcript_is_all_deltas(first, events);
}

/// A `transcription.done` event gives the consumer its text as it is, or all
/// deltas, without white space around them, where it has none.
pub proof fn a_done_event_gives_the_transcript(
    first: Phase<Seq<char>>,
    events: Seq<ReadModel>,
    message: Message<Seq<char>>,
)
    requires
        first is AwaitStart,
        is_course(first, events),
        phase_after(first, events) is Draining,
        message_kind(message) == Some("transcription.done"@),
    ensures
        reaction(phase_after(first, events), Event::Upstream(Frame::Text(message))) == conclude(
            Notice::Done(
                match message.fields->0.text {
                    Some(text) => text,
                    None => trimmed(deltas(first, events)),
                },
            ),
        ),
{
    transcript_is_all_deltas(first, events);
    kinds_differ();
}

/// The consumer is told of the outcome once, at the end: whatever is no preview
/// ends the session, and a preview does not.
pub proof fn only_previews_are_not_the_last_word(phase: Phase<Seq<char>>, event: ReadModel)
    requires
        answers(phase, event),
    ensures
        ({
            let (next, step) = reaction(phase, event);
            step.notice matches Some(notice) ==> (notice is Preview <==> !(next is Finished))
        }),
{
}

/// A session that reached the draining of transcript events ends with a
/// transcript or an error for the consumer, and closes; no other does.
pub proof fn a_drained_session_concludes(phase: Phase<Seq<char>>, event: ReadModel)
    requires
        answers(phase, event),
    ensures
        ({
            let (next, step) = reaction(phase, event);
            &&& step.close <==> phase is Draining && next is Finished
            &&& step.close ==> step.notice is Some && step.work is Finish
        }),
{
}

/// A session ends in silence only where the consumer is gone: it hung up before
/// starting, or receiving from it failed. Every other end is told.
pub proof fn no_end_is_silent_but_the_consumers(phase: Phase<Seq<char>>, event: ReadModel)
    requires
        answers(phase, event),
    ensures
        ({
            let (next, step) = reaction(phase, event);
            next is Finished && step.notice is None <==> event is ConsumerFailed || (
            phase is AwaitStart && consumer_closes(event))
        }),
{
}

/// A session is over exactly when its step says so, and then takes no event.
pub proof fn an_end_is_an_end(phase: Phase<Seq<char>>, event: ReadModel, later: ReadModel)
    requires
        answers(phase, event),
    ensures
        ({
            let (next, step) = reaction(phase, event);
            &&& next is Finished <==> step.work is Finish || step.work is Fail
            &&& next is Finished ==> !answers(next, later)
        }),
{
}

/// Without an API key the consumer is told so, and no session begins.
pub proof fn no_key_no_session(list: Seq<(Seq<char>, Seq<u8>)>)
    requires
        header_bytes(list, API_KEY_HEADER@) is None,
    ensures
        opening(list) == give_up("missing mistral api key"@),
{
}

/// A session takes a text for what the frame parsers do: it sees the same `type`
/// in it, and the same texts are `start` and `stop` frames.
pub proof fn sessions_agree_with_the_parsers(raw: Seq<char>)
    ensures
        message_kind(message_of(raw)) == kind_of(text_contents(raw)),
        message_kind(message_of(raw)) == Some("start"@) <==> start_of(text_contents(raw)) is Some,
        message_kind(message_of(raw)) == Some("stop"@) <==> is_stop_frame(text_contents(raw)),
{
}

/// Every delta gives a preview, the first like any other: the preview shows all
/// deltas so far and this one, without white space around them, and draining
/// goes on.
pub proof fn every_delta_gives_a_preview(
    first: Phase<Seq<char>>,
    events: Seq<ReadModel>,
    message: Message<Seq<char>>,
    text: Seq<char>,
)
    requires
        first is AwaitStart,
        is_course(first, events),
        phase_after(first, events) is Draining,
        message_kind(message) == Some("transcription.text.delta"@),
        message.fields->0.text == Some(text),
    ensures
        reaction(phase_after(first, events), Event::Upstream(Frame::Text(message))) == (
            Phase::Draining { accumulated: deltas(first, events) + text },
            StepModel {
                notice: Some(Notice::Preview(trimmed(deltas(first, events) + text))),
                close: false,
                work: Work::RecvUpstream,
            },
        ),
{
    transcript_is_all_deltas(first, events);
    kinds_differ();
}

/// What a step is that only asks for work: the consumer is told nothing and is
/// not closed.
pub open spec fn only_asks(step: StepModel, work: Work) -> bool {
    step == (StepModel { notice: None, close: false, work })
}

/// Whether a session is over, with an error for the consumer, who stays open.
pub open spec fn ends_with_error(r: (Phase<Seq<char>>, StepModel), message: Seq<char>) -> bool {
    &&& r.0 is Finished
    &&& r.1 == (StepModel {
        notice: Some(Notice::Error(message)),
        close: false,
        work: Work::Finish,
    })
}

/// Whether a session is over and the consumer closed, with a last word for it.
pub open spec fn closes_with(r: (Phase<Seq<char>>, StepModel), notice: Notice) -> bool {
    &&& r.0 is Finished
    &&& r.1 == (StepModel { notice: Some(notice), close: true, work: Work::Finish })
}

/// How a session opens: with a key it waits for the consumer, and keeps the key
/// and the endpoint of the headers; without one the consumer is told.
pub proof fn sessions_open_with_a_key(list: Seq<(Seq<char>, Seq<u8>)>)
    ensures
        header_text(list, "x-stt-secret-mistral_api_key"@) is None ==> ends_with_error(
            opening(list),
            "missing mistral api key"@,
        ),
        header_text(list, "x-stt-secret-mistral_api_key"@) matches Some(key) ==> {
            let base = match header_text(list, "x-stt-option-base_url"@) {
                Some(b) => b,
                None => "https://api.mistral.ai"@,
            };
            let model = match header_text(list, "x-stt-model"@) {
                Some(m) => m,
                None => "voxtral-mini-transcribe-realtime-2602"@,
            };
            &&& only_asks(opening(list).1, Work::RecvConsumer)
            &&& opening(list).0 matches Phase::AwaitStart { url, api_key }
            &&& api_key == key
            &&& url == realtime_endpoint(base, model)
        },
{
}

/// What the first event of the consumer leads to: a `start` frame connects with
/// the key, any other text and any audio are refused, a consumer that hangs up
/// is let go, and a failure is passed on.
pub proof fn the_start_is_awaited(
    url: Seq<char>,
    api_key: Seq<char>,
    message: Message<Seq<char>>,
    pcm: Seq<u8>,
)
    ensures
        ({
            let phase = Phase::AwaitStart { url, api_key };
            let text = reaction(phase, Event::Consumer(Frame::Text(message)));
            let audio = reaction(phase, Event::Consumer(Frame::Binary(pcm)));
            let close = reaction(phase, Event::Consumer(Frame::Close));
            let failed = reaction(phase, Event::ConsumerFailed);
            &&& message_kind(message) == Some("start"@) ==> text.0 is Connecting && only_asks(
                text.1,
                Work::Connect {
                    url,
                    headers: seq![("authorization"@, encode_utf8("Bearer "@ + api_key))],
                },
            )
            &&& message_kind(message) != Some("start"@) ==> ends_with_error(
                text,
                "invalid start frame"@,
            )
            &&& ends_with_error(audio, "audio before start frame"@)
            &&& close.0 is Finished && only_asks(close.1, Work::Finish)
            &&& failed.0 is Finished && only_asks(failed.1, Work::Fail)
        }),
{
    encoding_splits("Bearer "@, api_key);
}

/// What connecting leads to.
pub proof fn a_connection_is_followed_by_the_handshake(reason: Seq<char>)
    ensures
        ({
            let done = reaction(Phase::Connecting, Event::Connected);
            &&& done.0 is Handshake
            &&& only_asks(done.1, Work::RecvUpstream)
            &&& ends_with_error(
                reaction(Phase::Connecting, Event::ConnectFailed(reason)),
                "upstream connect failed: "@ + reason,
            )
        }),
{
}

/// What the upstream leads to before the session is created: `session.created`
/// lets the audio begin, an error is passed on with the whole event, other
/// frames are ignored, and an upstream that is gone ends the session.
pub proof fn the_handshake_is_awaited(
    message: Message<Seq<char>>,
    bytes: Seq<u8>,
    reason: Seq<char>,
)
    ensures
        ({
            let text = reaction(Phase::Handshake, Event::Upstream(Frame::Text(message)));
            let binary = reaction(Phase::Handshake, Event::Upstream(Frame::Binary(bytes)));
            let gone = "upstream closed during handshake"@;
            let kind = message_kind(message);
            &&& kind == Some("session.created"@) ==> text.0 is Audio && only_asks(
                text.1,
                Work::RecvConsumer,
            )
            &&& kind == Some("error"@) ==> ends_with_error(text, "upstream error: "@ + message.raw)
            &&& kind != Some("session.created"@) && kind != Some("error"@) ==> text.0 is Handshake
                && only_asks(text.1, Work::RecvUpstream)
            &&& binary.0 is Handshake && only_asks(binary.1, Work::RecvUpstream)
            &&& ends_with_error(reaction(Phase::Handshake, Event::Upstream(Frame::Close)), gone)
            &&& ends_with_error(reaction(Phase::Handshake, Event::UpstreamClosed), gone)
            &&& ends_with_error(reaction(Phase::Handshake, Event::UpstreamFailed(reason)), gone)
        }),
{
    reveal_strlit("session.created");
    reveal_strlit("error");
    assert("session.created"@.len() != "error"@.len());
}

/// What the consumer leads to while its audio is forwarded: audio goes upstream
/// as it is, a `stop` frame and a close are followed by the flush, other texts
/// are ignored, and a failure is passed on.
pub proof fn audio_is_forwarded(message: Message<Seq<char>>, pcm: Seq<u8>)
    ensures
        ({
            let audio = reaction(Phase::Audio, Event::Consumer(Frame::Binary(pcm)));
            let text = reaction(Phase::Audio, Event::Consumer(Frame::Text(message)));
            let close = reaction(Phase::Audio, Event::Consumer(Frame::Close));
            let failed = reaction(Phase::Audio, Event::ConsumerFailed);
            &&& audio.0 is Forwarding
            &&& only_asks(audio.1, Work::SendUpstream(Sending::Audio(pcm)))
            &&& message_kind(message) == Some("stop"@) ==> text.0 is Flushing && only_asks(
                text.1,
                Work::SendUpstream(Sending::Flush),
            )
            &&& message_kind(message) != Some("stop"@) ==> text.0 is Audio && only_asks(
                text.1,
                Work::RecvConsumer,
            )
            &&& close.0 is Flushing
            &&& only_asks(close.1, Work::SendUpstream(Sending::Flush))
            &&& failed.0 is Finished
            &&& only_asks(failed.1, Work::Fail)
        }),
{
}

/// What sending upstream leads to: audio is followed by the next frame of the
/// consumer, the flush by the end, and the end by draining with no transcript
/// yet. A failure ends the session with its reason.
pub proof fn sending_is_followed_up(reason: Seq<char>)
    ensures
        ({
            let audio = reaction(Phase::Forwarding, Event::Sent);
            let flush = reaction(Phase::Flushing, Event::Sent);
            let end = reaction(Phase::Ending, Event::Sent);
            &&& audio.0 is Audio
            &&& only_asks(audio.1, Work::RecvConsumer)
            &&& flush.0 is Ending
            &&& only_asks(flush.1, Work::SendUpstream(Sending::End))
            &&& end.0 matches Phase::Draining { accumulated } && accumulated.len() == 0
            &&& only_asks(end.1, Work::RecvUpstream)
            &&& ends_with_error(
                reaction(Phase::Forwarding, Event::SendFailed(reason)),
                "upstream send failed: "@ + reason,
            )
            &&& ends_with_error(
                reaction(Phase::Flushing, Event::SendFailed(reason)),
                "flush/end failed: "@ + reason,
            )
            &&& ends_with_error(
                reaction(Phase::Ending, Event::SendFailed(reason)),
                "flush/end failed: "@ + reason,
            )
        }),
{
}

/// What ends the draining of transcript events: an error event, with its message
/// or a stock one; a `transcription.done` event; an upstream that is gone. Every
/// other frame but a delta with a text is ignored, and the transcript is kept.
pub proof fn draining_ends_once(
    accumulated: Seq<char>,
    message: Message<Seq<char>>,
    bytes: Seq<u8>,
    reason: Seq<char>,
)
    ensures
        ({
            let phase = Phase::Draining { accumulated };
            let text = reaction(phase, Event::Upstream(Frame::Text(message)));
            let binary = reaction(phase, Event::Upstream(Frame::Binary(bytes)));
            let kind = message_kind(message);
            let said = message.fields->0;
            &&& kind == Some("error"@) ==> match said.failure {
                Some(m) => closes_with(text, Notice::Error(m)),
                None => closes_with(text, Notice::Error("upstream error"@)),
            }
            &&& kind == Some("transcription.done"@) ==> match said.text {
                Some(t) => closes_with(text, Notice::Done(t)),
                None => closes_with(text, Notice::Done(trimmed(accumulated))),
            }
            &&& kind == Some("transcription.text.delta"@) && said.text is None ==> text.0 == phase
                && only_asks(text.1, Work::RecvUpstream)
            &&& kind != Some("error"@) && kind != Some("transcription.done"@) && kind != Some(
                "transcription.text.delta"@,
            ) ==> text.0 == phase && only_asks(text.1, Work::RecvUpstream)
            &&& binary.0 == phase && only_asks(binary.1, Work::RecvUpstream)
            &&& closes_with(
                reaction(phase, Event::Upstream(Frame::Close)),
                Notice::Done(trimmed(accumulated)),
            )
            &&& closes_with(
                reaction(phase, Event::UpstreamClosed),
                Notice::Done(trimmed(accumulated)),
            )
            &&& closes_with(
                reaction(phase, Event::UpstreamFailed(reason)),
                Notice::Error("upstream recv failed: "@ + reason),
            )
        }),
{
    kinds_differ();
}

/// The `type` of a message is the string under `type` of the JSON that it is.
pub proof fn the_kind_of_a_message_is_its_type(raw: Seq<char>, document: Json, s: Seq<char>)
    ensures
        text_contents(raw) == Some(document) ==> (message_kind(message_of(raw)) == Some(s)
            <==> holds(document, "type"@, Json::Text(s))),
        text_contents(raw) is None ==> message_kind(message_of(raw)) is None,
{
}

/// A step does what is meant: the consumer is sent a frame exactly where it is
/// told something, the frame reads as what it is told, and the request asks for
/// the work that is meant, with what it needs.
pub proof fn steps_do_what_is_meant(step: Step, model: StepModel)
    requires
        realises(step, model),
    ensures
        step.notify is Some <==> model.notice is Some,
        step.close == model.close,
        step.notify matches Some(text) ==> {
            &&& text_contents(text@) matches Some(document)
            &&& match model.notice->0 {
                Notice::Preview(t) => {
                    &&& holds(document, "type"@, Json::Text("preview"@))
                    &&& holds(document, "text"@, Json::Text(t))
                },
                Notice::Done(t) => {
                    &&& holds(document, "type"@, Json::Text("done"@))
                    &&& holds(document, "transcription"@, Json::Text(t))
                },
                Notice::Error(m) => {
                    &&& holds(document, "type"@, Json::Text("error"@))
                    &&& holds(document, "message"@, Json::Text(m))
                },
            }
        },
        match step.request {
            Request::RecvConsumer => model.work is RecvConsumer,
            Request::Connect { url, headers } => {
                &&& model.work matches Work::Connect { url: u, headers: h }
                &&& url@ == u
                &&& headers@.len() == h.len()
                &&& forall|i: int|
                    0 <= i < h.len() ==> (#[trigger] headers@[i]).0@ == h[i].0 && headers@[i].1@
                        == h[i].1
            },
            Request::RecvUpstream => model.work is RecvUpstream,
            Request::SendUpstream(text) => match model.work {
                Work::SendUpstream(Sending::Audio(pcm)) => {
                    &&& text_contents(text@) matches Some(document)
                    &&& holds(document, "type"@, Json::Text("input_audio.append"@))
                    &&& holds(document, "audio"@, Json::Text(base64_text(pcm)))
                },
                Work::SendUpstream(Sending::Flush) => text@
                    == "{\"type\":\"input_audio.flush\"}"@,
                Work::SendUpstream(Sending::End) => text@ == "{\"type\":\"input_audio.end\"}"@,
                _ => false,
            },
            Request::Finish => model.work is Finish,
            Request::Fail => model.work is Fail,
        },
{
    if let Some(notice) = model.notice {
        match notice {
            Notice::Preview(t) => frames_read_back(t, Seq::empty()),
            Notice::Done(t) => frames_read_back(t, Seq::empty()),
            Notice::Error(m) => frames_read_back(m, Seq::empty()),
        }
    }
    if let Work::SendUpstream(Sending::Audio(pcm)) = model.work {
        frames_read_back(Seq::empty(), pcm);
    }
    if let Request::Connect { url, headers } = step.request {
        let list = header_list(headers@);
        assert forall|i: int| 0 <= i < headers@.len() implies (#[trigger] headers@[i]).0@
            == list[i].0 && headers@[i].1@ == list[i].1 by {}
    }
}

/// How far a session is is seen whole.
pub proof fn phases_are_seen_whole(phase: Phase<String>)
    ensures
        match phase {
            Phase::AwaitStart { url, api_key } => phase@ == (Phase::AwaitStart {
                url: url@,
                api_key: api_key@,
            }),
            Phase::Connecting => phase@ is Connecting,
            Phase::Handshake => phase@ is Handshake,
            Phase::Audio => phase@ is Audio,
            Phase::Forwarding => phase@ is Forwarding,
            Phase::Flushing => phase@ is Flushing,
            Phase::Ending => phase@ is Ending,
            Phase::Draining { accumulated } => phase@ == (Phase::Draining {
                accumulated: accumulated@,
            }),
            Phase::Finished => phase@ is Finished,
        },
{
}

/// Every outcome of the work that a session asks for is taken in, but for audio
/// whose base64 text would not fit in memory; so is every event once read.
pub proof fn every_outcome_of_a_session_is_taken_in(phase: Phase<Seq<char>>, event: WireModel)
    ensures
        answers(phase, event) <==> answers(phase, event_read(event)),
        phase is AwaitStart && (event is Consumer || event is ConsumerFailed) ==> answers(
            phase,
            event,
        ),
        phase is Connecting && (event is Connected || event is ConnectFailed) ==> answers(
            phase,
            event,
        ),
        (phase is Handshake || phase is Draining) && (event is Upstream || event is UpstreamClosed
            || event is UpstreamFailed) ==> answers(phase, event),
        (phase is Forwarding || phase is Flushing || phase is Ending) && (event is Sent
            || event is SendFailed) ==> answers(phase, event),
        phase is Audio && event is ConsumerFailed ==> answers(phase, event),
        phase is Audio ==> (event matches Event::Consumer(frame) ==> (match frame {
            Frame::Binary(pcm) => base64_text(pcm).len() <= isize::MAX ==> answers(phase, event),
            _ => answers(phase, event),
        })),
{
    if let Event::Consumer(Frame::Binary(pcm)) = event {
        base64_text_len(pcm);
    }
}

} // verus!
