//! What a realtime session sees: WebSocket frames, and what their texts say.

use crate::frames::owned;
use crate::json::as_text;
use crate::json::contents;
use crate::json::holds;
use crate::json::member;
use crate::json::member_of;
use crate::json::parse_text;
use crate::json::text_contents;
use crate::json::text_member;
use crate::json::text_under;
use crate::json::Json;
use crate::text::optional_string;
use crate::text::optional_text;
use vstd::prelude::*;

verus! {

/// A WebSocket frame with text `M` and bytes `B`.
pub enum Frame<M, B> {
    Text(M),
    Binary(B),
    Close,
}

/// The fields of a JSON message that sessions look at: its `type`, its `text`,
/// and the message of its error.
pub struct Fields<T> {
    pub kind: Option<T>,
    pub text: Option<T>,
    pub failure: Option<T>,
}

/// A text frame and its fields, if it is JSON.
pub struct Message<T> {
    pub raw: T,
    pub fields: Option<Fields<T>>,
}

/// What came of the work that a session asked for.
pub enum Event<M, T, B> {
    /// A frame of the consumer.
    Consumer(Frame<M, B>),
    /// Receiving from the consumer failed.
    ConsumerFailed,
    /// The upstream is connected.
    Connected,
    /// The upstream could not be connected, with the reason.
    ConnectFailed(T),
    /// A frame of the upstream.
    Upstream(Frame<M, B>),
    /// The upstream had closed when a frame was to be received.
    UpstreamClosed,
    /// Receiving from the upstream failed otherwise, with the reason.
    UpstreamFailed(T),
    /// The text was sent to the upstream.
    Sent,
    /// The text could not be sent to the upstream, with the reason.
    SendFailed(T),
}

/// An event as it comes from outside.
pub type WireEvent = Event<String, String, Vec<u8>>;

/// An event whose texts are read.
pub type ReadEvent = Event<Message<String>, String, Vec<u8>>;

/// An event from outside, as plain values.
pub type WireModel = Event<Seq<char>, Seq<char>, Seq<u8>>;

/// An event whose texts are read, as plain values.
pub type ReadModel = Event<Message<Seq<char>>, Seq<char>, Seq<u8>>;

impl<M: View, B: View> View for Frame<M, B> {
    type V = Frame<M::V, B::V>;

    open spec fn view(&self) -> Frame<M::V, B::V> {
        match self {
            Frame::Text(m) => Frame::Text(m@),
            Frame::Binary(b) => Frame::Binary(b@),
            Frame::Close => Frame::Close,
        }
    }
}

impl View for Fields<String> {
    type V = Fields<Seq<char>>;

    open spec fn view(&self) -> Fields<Seq<char>> {
        Fields {
            kind: optional_string(self.kind),
            text: optional_string(self.text),
            failure: optional_string(self.failure),
        }
    }
}

impl View for Message<String> {
    type V = Message<Seq<char>>;

    open spec fn view(&self) -> Message<Seq<char>> {
        Message {
            raw: self.raw@,
            fields: match self.fields {
                Some(f) => Some(f@),
                None => None,
            },
        }
    }
}

impl<M: View, T: View, B: View> View for Event<M, T, B> {
    type V = Event<M::V, T::V, B::V>;

    open spec fn view(&self) -> Event<M::V, T::V, B::V> {
        match self {
            Event::Consumer(f) => Event::Consumer(f@),
            Event::ConsumerFailed => Event::ConsumerFailed,
            Event::Connected => Event::Connected,
            Event::ConnectFailed(e) => Event::ConnectFailed(e@),
            Event::Upstream(f) => Event::Upstream(f@),
            Event::UpstreamClosed => Event::UpstreamClosed,
            Event::UpstreamFailed(e) => Event::UpstreamFailed(e@),
            Event::Sent => Event::Sent,
            Event::SendFailed(e) => Event::SendFailed(e@),
        }
    }
}

/// The member of a document that says what went wrong: `error.message`, else
/// `message`.
pub open spec fn failure_member(document: Json) -> Option<Json> {
    match member(document, "error"@) {
        Some(error) => match member(error, "message"@) {
            Some(message) => Some(message),
            None => member(document, "message"@),
        },
        None => member(document, "message"@),
    }
}

/// The fields of a document.
pub open spec fn document_fields(document: Json) -> Fields<Seq<char>> {
    Fields {
        kind: text_member(document, "type"@),
        text: text_member(document, "text"@),
        failure: as_text(failure_member(document)),
    }
}

/// What a text says.
pub open spec fn message_of(raw: Seq<char>) -> Message<Seq<char>> {
    Message {
        raw,
        fields: match text_contents(raw) {
            Some(document) => Some(document_fields(document)),
            None => None,
        },
    }
}

/// A frame with its text read.
pub open spec fn frame_read(frame: Frame<Seq<char>, Seq<u8>>) -> Frame<
    Message<Seq<char>>,
    Seq<u8>,
> {
    match frame {
        Frame::Text(raw) => Frame::Text(message_of(raw)),
        Frame::Binary(b) => Frame::Binary(b),
        Frame::Close => Frame::Close,
    }
}

/// An event with its text read.
pub open spec fn event_read(event: WireModel) -> ReadModel {
    match event {
        Event::Consumer(f) => Event::Consumer(frame_read(f)),
        Event::ConsumerFailed => Event::ConsumerFailed,
        Event::Connected => Event::Connected,
        Event::ConnectFailed(e) => Event::ConnectFailed(e),
        Event::Upstream(f) => Event::Upstream(frame_read(f)),
        Event::UpstreamClosed => Event::UpstreamClosed,
        Event::UpstreamFailed(e) => Event::UpstreamFailed(e),
        Event::Sent => Event::Sent,
        Event::SendFailed(e) => Event::SendFailed(e),
    }
}

/// The message of the error in a document.
fn failure_under<'a>(v: &'a serde_json::Value) -> (r: Option<&'a str>)
    ensures
        optional_text(r) == as_text(failure_member(contents(*v))),
{
    let nested = match member_of(v, "error") {
        Some(error) => member_of(error, "message"),
        None => None,
    };
    let found = match nested {
        Some(message) => Some(message),
        None => member_of(v, "message"),
    };
    match found {
        Some(message) => message.as_str(),
        None => None,
    }
}

/// Read what a text says.
pub fn read_message(raw: String) -> (r: Message<String>)
    ensures
        r@ == message_of(raw@),
{
    let fields: Option<Fields<String>> = match parse_text(raw.as_str()) {
        Some(v) => Some(
            Fields {
                kind: owned(text_under(&v, "type")),
                text: owned(text_under(&v, "text")),
                failure: owned(failure_under(&v)),
            },
        ),
        None => None,
    };
    Message { raw, fields }
}

/// Read the text of a frame.
fn read_frame(frame: Frame<String, Vec<u8>>) -> (r: Frame<Message<String>, Vec<u8>>)
    ensures
        r@ == frame_read(frame@),
{
    match frame {
        Frame::Text(raw) => Frame::Text(read_message(raw)),
        Frame::Binary(b) => Frame::Binary(b),
        Frame::Close => Frame::Close,
    }
}

/// Read the text of an event.
pub fn read_event(event: WireEvent) -> (r: ReadEvent)
    ensures
        r@ == event_read(event@),
{
    match event {
        Event::Consumer(f) => Event::Consumer(read_frame(f)),
        Event::ConsumerFailed => Event::ConsumerFailed,
        Event::Connected => Event::Connected,
        Event::ConnectFailed(e) => Event::ConnectFailed(e),
        Event::Upstream(f) => Event::Upstream(read_frame(f)),
        Event::UpstreamClosed => Event::UpstreamClosed,
        Event::UpstreamFailed(e) => Event::UpstreamFailed(e),
        Event::Sent => Event::Sent,
        Event::SendFailed(e) => Event::SendFailed(e),
    }
}

/// A message keeps its text, and has fields exactly where the text is JSON.
pub proof fn messages_keep_their_text(raw: Seq<char>)
    ensures
        message_of(raw).raw == raw,
        message_of(raw).fields is Some <==> text_contents(raw) is Some,
        text_contents(raw) matches Some(document) ==> message_of(raw).fields == Some(
            document_fields(document),
        ),
{
}

/// The fields of a document are the strings under `type` and `text`, as they
/// are. The message of its error is the string under `error.message`; where
/// there is no such member, of whatever kind, it is the string under `message`.
pub proof fn fields_are_the_strings(document: Json, s: Seq<char>, error: Json, inner: Json)
    ensures
        document_fields(document).kind == Some(s) <==> holds(document, "type"@, Json::Text(s)),
        document_fields(document).text == Some(s) <==> holds(document, "text"@, Json::Text(s)),
        holds(document, "error"@, error) && holds(error, "message"@, inner) ==> (document_fields(
            document,
        ).failure == Some(s) <==> inner == Json::Text(s)),
        (forall|e: Json, m: Json|
            !(#[trigger] holds(document, "error"@, e) && #[trigger] holds(e, "message"@, m)))
            ==> (document_fields(document).failure == Some(s) <==> holds(
            document,
            "message"@,
            Json::Text(s),
        )),
{
    if forall|e: Json, m: Json|
        !(#[trigger] holds(document, "error"@, e) && #[trigger] holds(e, "message"@, m)) {
        if let Some(e) = member(document, "error"@) {
            assert(holds(document, "error"@, e));
            if let Some(m) = member(e, "message"@) {
                assert(holds(e, "message"@, m));
            }
        }
    }
}

/// Reading an event reads its text and changes nothing else.
pub proof fn reading_changes_only_texts(raw: Seq<char>, bytes: Seq<u8>, reason: Seq<char>)
    ensures
        event_read(Event::Consumer(Frame::Text(raw))) == ReadModel::Consumer(
            Frame::Text(message_of(raw)),
        ),
        event_read(Event::Upstream(Frame::Text(raw))) == ReadModel::Upstream(
            Frame::Text(message_of(raw)),
        ),
        event_read(Event::Consumer(Frame::Binary(bytes))) == ReadModel::Consumer(
            Frame::Binary(bytes),
        ),
        event_read(Event::Upstream(Frame::Binary(bytes))) == ReadModel::Upstream(
            Frame::Binary(bytes),
        ),
        event_read(Event::Consumer(Frame::Close)) == ReadModel::Consumer(Frame::Close),
        event_read(Event::Upstream(Frame::Close)) == ReadModel::Upstream(Frame::Close),
        event_read(Event::ConsumerFailed) is ConsumerFailed,
        event_read(Event::Connected) is Connected,
        event_read(Event::UpstreamClosed) is UpstreamClosed,
        event_read(Event::Sent) is Sent,
        event_read(Event::ConnectFailed(reason)) == ReadModel::ConnectFailed(reason),
        event_read(Event::UpstreamFailed(reason)) == ReadModel::UpstreamFailed(reason),
        event_read(Event::SendFailed(reason)) == ReadModel::SendFailed(reason),
{
}

/// Events, messages and their fields are seen whole.
pub proof fn events_are_seen_whole(
    event: WireEvent,
    message: Message<String>,
    fields: Fields<String>,
)
    ensures
        message@.raw == message.raw@,
        message@.fields is Some <==> message.fields is Some,
        message.fields matches Some(f) ==> message@.fields == Some(f@),
        fields@.kind is Some <==> fields.kind is Some,
        fields.kind matches Some(t) ==> fields@.kind == Some(t@),
        fields@.text is Some <==> fields.text is Some,
        fields.text matches Some(t) ==> fields@.text == Some(t@),
        fields@.failure is Some <==> fields.failure is Some,
        fields.failure matches Some(t) ==> fields@.failure == Some(t@),
        match event {
            Event::Consumer(Frame::Text(t)) => event@ == WireModel::Consumer(Frame::Text(t@)),
            Event::Consumer(Frame::Binary(b)) => event@ == WireModel::Consumer(Frame::Binary(b@)),
            Event::Consumer(Frame::Close) => event@ == WireModel::Consumer(Frame::Close),
            Event::Upstream(Frame::Text(t)) => event@ == WireModel::Upstream(Frame::Text(t@)),
            Event::Upstream(Frame::Binary(b)) => event@ == WireModel::Upstream(Frame::Binary(b@)),
            Event::Upstream(Frame::Close) => event@ == WireModel::Upstream(Frame::Close),
            Event::ConsumerFailed => event@ is ConsumerFailed,
            Event::Connected => event@ is Connected,
            Event::UpstreamClosed => event@ is UpstreamClosed,
            Event::Sent => event@ is Sent,
            Event::ConnectFailed(e) => event@ == WireModel::ConnectFailed(e@),
            Event::UpstreamFailed(e) => event@ == WireModel::UpstreamFailed(e@),
            Event::SendFailed(e) => event@ == WireModel::SendFailed(e@),
        },
{
}

} // verus!
