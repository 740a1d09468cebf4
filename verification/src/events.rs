//! Classification of the JSON envelope of a callback into a closed set of
//! events.
//!
//! Slack sends an open-ended JSON document. It is parsed with `serde_json`;
//! the few string members that classification reads are copied into an
//! [`Envelope`], and [`classify`] maps the envelope to an [`Event`]. A kind of
//! callback that this library does not know becomes [`Event::Other`], never an
//! error.

use crate::text::str_equal;
use vstd::prelude::*;
use vstd::string::StringExecFns;

verus! {

/// An event received from Slack.
#[derive(Debug, PartialEq, Eq)]
pub enum Event {
    /// Slack asks the endpoint to prove that it owns its URL.
    UrlVerification {
        /// The token to echo back.
        challenge: String,
    },
    /// The application was mentioned in a message.
    AppMention {
        /// The channel of the message.
        channel: String,
        /// The timestamp that identifies the message.
        ts: String,
        /// The text of the message.
        text: String,
        /// The workspace that the event comes from.
        team_id: Option<String>,
    },
    /// A message was posted.
    Message {
        /// The channel of the message.
        channel: String,
        /// The text of the message.
        text: String,
        /// The workspace that the event comes from.
        team_id: Option<String>,
    },
    /// Any callback of a kind that this library does not handle.
    Other,
}

/// The mathematical value of an [`Event`].
pub enum EventView {
    UrlVerification { challenge: Seq<char> },
    AppMention { channel: Seq<char>, ts: Seq<char>, text: Seq<char>, team_id: Option<Seq<char>> },
    Message { channel: Seq<char>, text: Seq<char>, team_id: Option<Seq<char>> },
    Other,
}

impl View for Event {
    type V = EventView;

    open spec fn view(&self) -> EventView {
        match self {
            Event::UrlVerification { challenge } => EventView::UrlVerification {
                challenge: challenge@,
            },
            Event::AppMention { channel, ts, text, team_id } => EventView::AppMention {
                channel: channel@,
                ts: ts@,
                text: text@,
                team_id: team_id.deep_view(),
            },
            Event::Message { channel, text, team_id } => EventView::Message {
                channel: channel@,
                text: text@,
                team_id: team_id.deep_view(),
            },
            Event::Other => EventView::Other,
        }
    }
}

/// Copies an optional text.
fn clone_text(text: &Option<String>) -> (r: Option<String>)
    ensures
        r.deep_view() == text.deep_view(),
{
    match text {
        Some(text) => Some(text.clone()),
        None => None,
    }
}

impl Clone for Event {
    fn clone(&self) -> (r: Self)
        ensures
            r@ == self@,
    {
        match self {
            Event::UrlVerification { challenge } => Event::UrlVerification {
                challenge: challenge.clone(),
            },
            Event::AppMention { channel, ts, text, team_id } => Event::AppMention {
                channel: channel.clone(),
                ts: ts.clone(),
                text: text.clone(),
                team_id: clone_text(team_id),
            },
            Event::Message { channel, text, team_id } => Event::Message {
                channel: channel.clone(),
                text: text.clone(),
                team_id: clone_text(team_id),
            },
            Event::Other => Event::Other,
        }
    }
}

/// A member of the inner event that a mention or a message cannot do
/// without.
#[derive(Clone, Copy, Debug, PartialEq, Eq, Structural)]
pub enum RequiredField {
    /// The member `channel`.
    Channel,
    /// The member `ts`.
    Ts,
}

impl RequiredField {
    /// The name of the member in the JSON document.
    pub fn name(&self) -> (r: &'static str)
        ensures
            r@ == match self {
                RequiredField::Channel => "channel"@,
                RequiredField::Ts => "ts"@,
            },
    {
        match self {
            RequiredField::Channel => "channel",
            RequiredField::Ts => "ts",
        }
    }
}

/// Why an envelope could not be classified.
#[derive(Clone, Copy, Debug, PartialEq, Eq, Structural)]
pub enum ParseError {
    /// The body is not a JSON document with the shape of an envelope.
    InvalidEnvelope,
    /// A URL verification carries no challenge, or an empty one.
    MissingChallenge,
    /// A mention or a message lacks the named member.
    MissingField(RequiredField),
}

/// The string members of a JSON envelope that classification reads. A member
/// that the document lacks, or that is not a string there, is `None`.
#[derive(Debug)]
pub struct Envelope {
    /// The member `type`: the kind of callback.
    pub kind: Option<String>,
    /// The member `challenge`.
    pub challenge: Option<String>,
    /// The member `team_id`.
    pub team_id: Option<String>,
    /// The member `type` of the object `event`: the kind of inner event.
    pub event_kind: Option<String>,
    /// The member `channel` of the object `event`.
    pub channel: Option<String>,
    /// The member `ts` of the object `event`.
    pub ts: Option<String>,
    /// The member `text` of the object `event`.
    pub text: Option<String>,
}

/// The mathematical value of an [`Envelope`].
pub struct EnvelopeView {
    pub kind: Option<Seq<char>>,
    pub challenge: Option<Seq<char>>,
    pub team_id: Option<Seq<char>>,
    pub event_kind: Option<Seq<char>>,
    pub channel: Option<Seq<char>>,
    pub ts: Option<Seq<char>>,
    pub text: Option<Seq<char>>,
}

impl View for Envelope {
    type V = EnvelopeView;

    open spec fn view(&self) -> EnvelopeView {
        EnvelopeView {
            kind: self.kind.deep_view(),
            challenge: self.challenge.deep_view(),
            team_id: self.team_id.deep_view(),
            event_kind: self.event_kind.deep_view(),
            channel: self.channel.deep_view(),
            ts: self.ts.deep_view(),
            text: self.text.deep_view(),
        }
    }
}

/// The text of an optional member, where a missing one reads as empty.
pub open spec fn text_or_empty(text: Option<Seq<char>>) -> Seq<char> {
    match text {
        Some(text) => text,
        None => Seq::empty(),
    }
}

/// The event that an envelope stands for.
///
/// An envelope without a kind is no envelope. A URL verification needs a
/// challenge that is not empty. A callback needs an inner kind; a mention
/// needs `channel` and `ts`, a message needs `channel`, and a missing text
/// reads as empty. Every other kind, outer or inner, is `Other`.
pub open spec fn classified(envelope: EnvelopeView) -> Result<EventView, ParseError> {
    match envelope.kind {
        None => Err(ParseError::InvalidEnvelope),
        Some(kind) => if kind == "url_verification"@ {
            match envelope.challenge {
                Some(challenge) => if challenge.len() > 0 {
                    Ok(EventView::UrlVerification { challenge })
                } else {
                    Err(ParseError::MissingChallenge)
                },
                None => Err(ParseError::MissingChallenge),
            }
        } else if kind == "event_callback"@ {
            match envelope.event_kind {
                None => Err(ParseError::InvalidEnvelope),
                Some(inner) => if inner == "app_mention"@ {
                    if envelope.channel is None {
                        Err(ParseError::MissingField(RequiredField::Channel))
                    } else if envelope.ts is None {
                        Err(ParseError::MissingField(RequiredField::Ts))
                    } else {
                        Ok(
                            EventView::AppMention {
                                channel: envelope.channel->0,
                                ts: envelope.ts->0,
                                text: text_or_empty(envelope.text),
                                team_id: envelope.team_id,
                            },
                        )
                    }
                } else if inner == "message"@ {
                    if envelope.channel is None {
                        Err(ParseError::MissingField(RequiredField::Channel))
                    } else {
                        Ok(
                            EventView::Message {
                                channel: envelope.channel->0,
                                text: text_or_empty(envelope.text),
                                team_id: envelope.team_id,
                            },
                        )
                    }
                } else {
                    Ok(EventView::Other)
                },
            }
        } else {
            Ok(EventView::Other)
        },
    }
}

/// The view of the outcome of a classification.
pub open spec fn outcome_view(outcome: Result<Event, ParseError>) -> Result<EventView, ParseError> {
    match outcome {
        Ok(event) => Ok(event@),
        Err(error) => Err(error),
    }
}

/// The given text, or the empty text where there is none.
fn unwrap_or_empty(text: Option<String>) -> (r: String)
    ensures
        r@ == text_or_empty(text.deep_view()),
{
    match text {
        Some(text) => text,
        None => String::new(),
    }
}

/// Maps an envelope to the event that it stands for.
pub fn classify(envelope: Envelope) -> (r: Result<Event, ParseError>)
    ensures
        outcome_view(r) == classified(envelope@),
{
    let Envelope { kind, challenge, team_id, event_kind, channel, ts, text } = envelope;
    let kind = match kind {
        Some(kind) => kind,
        None => {
            return Err(ParseError::InvalidEnvelope);
        },
    };
    if str_equal(kind.as_str(), "url_verification") {
        match challenge {
            Some(challenge) => if challenge.as_str().is_empty() {
                Err(ParseError::MissingChallenge)
            } else {
                Ok(Event::UrlVerification { challenge })
            },
            None => Err(ParseError::MissingChallenge),
        }
    } else if str_equal(kind.as_str(), "event_callback") {
        let inner = match event_kind {
            Some(inner) => inner,
            None => {
                return Err(ParseError::InvalidEnvelope);
            },
        };
        if str_equal(inner.as_str(), "app_mention") {
            match (channel, ts) {
                (None, _) => Err(ParseError::MissingField(RequiredField::Channel)),
                (Some(_), None) => Err(ParseError::MissingField(RequiredField::Ts)),
                (Some(channel), Some(ts)) => Ok(
                    Event::AppMention { channel, ts, text: unwrap_or_empty(text), team_id },
                ),
            }
        } else if str_equal(inner.as_str(), "message") {
            match channel {
                None => Err(ParseError::MissingField(RequiredField::Channel)),
                Some(channel) => Ok(
                    Event::Message { channel, text: unwrap_or_empty(text), team_id },
                ),
            }
        } else {
            Ok(Event::Other)
        }
    } else {
        Ok(Event::Other)
    }
}

// ---------------------------------------------------------------------------
// Reading the JSON document
// ---------------------------------------------------------------------------

/// A parsed JSON document, as `serde_json` holds it.
#[verifier::external_type_specification]
#[verifier::external_body]
pub struct ExJsonValue(serde_json::Value);

/// The error with which `serde_json` refuses a text.
#[verifier::external_type_specification]
#[verifier::external_body]
pub struct ExJsonError(serde_json::Error);

/// The strings of a parsed JSON document, by JSON Pointer: a pointer is a key
/// of the map where `serde_json::Value::pointer` finds a value under it and
/// that value is a JSON string, and the map then gives the string's text.
pub uninterp spec fn document_strings(document: serde_json::Value) -> Map<Seq<char>, Seq<char>>;

/// The strings, by JSON Pointer, of the document that the bytes `raw` spell;
/// `None` where `serde_json` does not accept the bytes as a JSON document.
pub uninterp spec fn json_strings(raw: Seq<u8>) -> Option<Map<Seq<char>, Seq<char>>>;

/// Parses bytes as one JSON document with `serde_json::from_slice`.
///
/// Trusted: that whether the bytes are accepted, and which document comes
/// out, depends on the bytes alone; [`json_strings`] is the name for that.
#[verifier::external_body]
fn parse_json(raw: &[u8]) -> (r: Result<serde_json::Value, serde_json::Error>)
    ensures
        match r {
            Ok(document) => json_strings(raw@) == Some(document_strings(document)),
            Err(_) => json_strings(raw@) is None,
        },
{
    serde_json::from_slice(raw)
}

/// The text under `pointer`, where the strings have one.
pub open spec fn member(strings: Map<Seq<char>, Seq<char>>, pointer: Seq<char>) -> Option<
    Seq<char>,
> {
    if strings.contains_key(pointer) {
        Some(strings[pointer])
    } else {
        None
    }
}

/// Looks up a JSON Pointer with `serde_json::Value::pointer` and copies the
/// text found there if `serde_json::Value::as_str` says it is a string.
///
/// Trusted: that the result is the entry of [`document_strings`] under the
/// pointer, which is how that map is defined.
#[verifier::external_body]
fn string_at(document: &serde_json::Value, pointer: &str) -> (r: Option<String>)
    ensures
        r.deep_view() == member(document_strings(*document), pointer@),
{
    document.pointer(pointer).and_then(serde_json::Value::as_str).map(str::to_owned)
}

/// The envelope that the strings of a document make up.
pub open spec fn envelope_of(strings: Map<Seq<char>, Seq<char>>) -> EnvelopeView {
    EnvelopeView {
        kind: member(strings, "/type"@),
        challenge: member(strings, "/challenge"@),
        team_id: member(strings, "/team_id"@),
        event_kind: member(strings, "/event/type"@),
        channel: member(strings, "/event/channel"@),
        ts: member(strings, "/event/ts"@),
        text: member(strings, "/event/text"@),
    }
}

/// Copies out of a parsed document the members that classification reads.
fn read_envelope(document: &serde_json::Value) -> (r: Envelope)
    ensures
        r@ == envelope_of(document_strings(*document)),
{
    Envelope {
        kind: string_at(document, "/type"),
        challenge: string_at(document, "/challenge"),
        team_id: string_at(document, "/team_id"),
        event_kind: string_at(document, "/event/type"),
        channel: string_at(document, "/event/channel"),
        ts: string_at(document, "/event/ts"),
        text: string_at(document, "/event/text"),
    }
}

/// The event that the bytes of a request body stand for: bytes that are no
/// JSON document are no envelope, and a document is classified by its string
/// members.
pub open spec fn normalized(raw: Seq<u8>) -> Result<EventView, ParseError> {
    match json_strings(raw) {
        Some(strings) => classified(envelope_of(strings)),
        None => Err(ParseError::InvalidEnvelope),
    }
}

/// Parses the body of a request and maps it to the event that it stands
/// for.
pub fn normalize(raw_json: &[u8]) -> (r: Result<Event, ParseError>)
    ensures
        outcome_view(r) == normalized(raw_json@),
{
    match parse_json(raw_json) {
        Ok(document) => classify(read_envelope(&document)),
        Err(_) => Err(ParseError::InvalidEnvelope),
    }
}

// ---------------------------------------------------------------------------
// Stock replies
// ---------------------------------------------------------------------------

/// A text to post in a channel.
#[derive(Debug, PartialEq, Eq)]
pub struct Reply {
    /// The channel to post in.
    pub channel: String,
    /// The text to post.
    pub text: String,
}

/// The stock reply to an event, as channel and text: a message is told that
/// it was received, a mention is asked what it called for, and nothing else
/// is replied to.
pub open spec fn stock_reply(event: EventView) -> Option<(Seq<char>, Seq<char>)> {
    match event {
        EventView::Message { channel, .. } => Some(
            (channel, "メッセージを受信しました！"@),
        ),
        EventView::AppMention { channel, .. } => Some((channel, "はい、呼びましたか？"@)),
        _ => None,
    }
}

/// The view of an optional reply, as channel and text.
pub open spec fn reply_view(reply: Option<Reply>) -> Option<(Seq<char>, Seq<char>)> {
    match reply {
        Some(reply) => Some((reply.channel@, reply.text@)),
        None => None,
    }
}

/// The stock reply with which an endpoint that has no logic of its own
/// answers an event in the channel that the event came from.
pub fn reply_for(event: &Event) -> (r: Option<Reply>)
    ensures
        reply_view(r) == stock_reply(event@),
{
    match event {
        Event::Message { channel, .. } => Some(
            Reply {
                channel: channel.clone(),
                text: String::from_str("メッセージを受信しました！"),
            },
        ),
        Event::AppMention { channel, .. } => Some(
            Reply {
                channel: channel.clone(),
                text: String::from_str("はい、呼びましたか？"),
            },
        ),
        _ => None,
    }
}

// ---------------------------------------------------------------------------
// Laws
// ---------------------------------------------------------------------------

/// The names of the kinds that classification knows are pairwise different.
proof fn lemma_kind_names_differ()
    ensures
        "url_verification"@ != "event_callback"@,
        "app_mention"@ != "message"@,
        "other"@ != "url_verification"@,
        "other"@ != "event_callback"@,
{
    reveal_strlit("url_verification");
    reveal_strlit("event_callback");
    reveal_strlit("app_mention");
    reveal_strlit("message");
    reveal_strlit("other");
    assert("url_verification"@.len() != "event_callback"@.len());
    assert("app_mention"@.len() != "message"@.len());
    assert("other"@.len() != "url_verification"@.len());
    assert("other"@.len() != "event_callback"@.len());
}

/// A callback whose inner event is of a kind that this library does not
/// know is never an error: it is `Other`, whatever else the envelope holds.
pub proof fn lemma_unknown_inner_kind_is_other(envelope: EnvelopeView)
    requires
        envelope.kind == Some("event_callback"@),
        envelope.event_kind is Some,
        envelope.event_kind->0 != "app_mention"@,
        envelope.event_kind->0 != "message"@,
    ensures
        classified(envelope) == Ok::<EventView, ParseError>(EventView::Other),
{
    lemma_kind_names_differ();
}

/// An envelope of a kind that this library does not know is never an error:
/// it is `Other`, whatever else the envelope holds.
pub proof fn lemma_unknown_kind_is_other(envelope: EnvelopeView)
    requires
        envelope.kind is Some,
        envelope.kind->0 != "url_verification"@,
        envelope.kind->0 != "event_callback"@,
    ensures
        classified(envelope) == Ok::<EventView, ParseError>(EventView::Other),
{
}

/// The plainest envelope that stands for a given event.
pub open spec fn envelope_for(event: EventView) -> EnvelopeView {
    match event {
        EventView::UrlVerification { challenge } => EnvelopeView {
            kind: Some("url_verification"@),
            challenge: Some(challenge),
            team_id: None,
            event_kind: None,
            channel: None,
            ts: None,
            text: None,
        },
        EventView::AppMention { channel, ts, text, team_id } => EnvelopeView {
            kind: Some("event_callback"@),
            challenge: None,
            team_id,
            event_kind: Some("app_mention"@),
            channel: Some(channel),
            ts: Some(ts),
            text: Some(text),
        },
        EventView::Message { channel, text, team_id } => EnvelopeView {
            kind: Some("event_callback"@),
            challenge: None,
            team_id,
            event_kind: Some("message"@),
            channel: Some(channel),
            ts: None,
            text: Some(text),
        },
        EventView::Other => EnvelopeView {
            kind: Some("other"@),
            challenge: None,
            team_id: None,
            event_kind: None,
            channel: None,
            ts: None,
            text: None,
        },
    }
}

/// Classification undoes [`envelope_for`]: writing an event back as an
/// envelope and classifying that envelope gives the same event again. The
/// one event that no envelope stands for is a URL verification with an empty
/// challenge.
pub proof fn lemma_classify_round_trip(event: EventView)
    requires
        event is UrlVerification ==> event->challenge.len() > 0,
    ensures
        classified(envelope_for(event)) == Ok::<EventView, ParseError>(event),
{
    lemma_kind_names_differ();
}

} // verus!
