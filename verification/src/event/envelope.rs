//! Frames, told apart by their shape, and what becomes of each.

use vstd::prelude::*;
use crate::decode::result_view;
use crate::decode::ParseError;
use crate::decode::ParseErrorView;
use crate::event::identifier::identifier_of_text;
use crate::event::identifier::Identifier;
use crate::event::identifier::IdentifierView;
use crate::event::kind::Event;
use crate::event::kind::EventError;
use crate::event::kind::EventErrorView;
use crate::event::kind::EventKind;
use crate::event::kind::EventKindView;
use crate::event::kind::EventView;
use crate::event::kind::Tag;
use crate::event::message::classified;
use crate::event::message::RawMessage;
use crate::event::message::RawMessageView;
use crate::json::json_parse;
use crate::json::same_text;
use crate::json::Json;
use crate::json::JsonView;

verus! {

/// What a control frame says.
#[derive(Debug, PartialEq)]
pub enum ControlKind {
    /// The service is alive.
    Ping,
    /// The connection stands.
    Welcome,
    /// The subscription to the channel stands.
    ConfirmSubscription(Identifier),
}

/// The mathematical value of a [`ControlKind`].
pub enum ControlKindView {
    Ping,
    Welcome,
    ConfirmSubscription(IdentifierView),
}

impl DeepView for ControlKind {
    type V = ControlKindView;

    open spec fn deep_view(&self) -> ControlKindView {
        match self {
            ControlKind::Ping => ControlKindView::Ping,
            ControlKind::Welcome => ControlKindView::Welcome,
            ControlKind::ConfirmSubscription(identifier) => ControlKindView::ConfirmSubscription(
                identifier.deep_view(),
            ),
        }
    }
}

/// A frame, told apart by its shape.
#[derive(Debug, PartialEq)]
pub enum Envelope<'a> {
    /// A frame that speaks of the connection.
    Control(ControlKind),
    /// A frame that carries a message of a known kind for a channel.
    Targeted(Identifier, RawMessage<'a>),
    /// A frame that carries a message of a kind that is not known.
    UnknownTargeted,
}

/// The mathematical value of an [`Envelope`].
pub enum EnvelopeView {
    Control(ControlKindView),
    Targeted(IdentifierView, RawMessageView),
    UnknownTargeted,
}

impl<'a> DeepView for Envelope<'a> {
    type V = EnvelopeView;

    open spec fn deep_view(&self) -> EnvelopeView {
        match self {
            Envelope::Control(kind) => EnvelopeView::Control(kind.deep_view()),
            Envelope::Targeted(identifier, message) => EnvelopeView::Targeted(
                identifier.deep_view(),
                message.deep_view(),
            ),
            Envelope::UnknownTargeted => EnvelopeView::UnknownTargeted,
        }
    }
}

/// The shape of a document, before the channel that it names is read.
pub enum Shape {
    Ping,
    Welcome,
    /// A confirmation, with the text that names the channel.
    Confirmation(Seq<char>),
    /// A message of a known kind, with the text that names the channel and
    /// the object under `message`.
    Message(Seq<char>, Tag, JsonView),
    /// A message of a kind that is not known.
    Unknown,
    /// None of these.
    Malformed,
}

/// The shape of a document. The shapes are tried in a fixed order, and the
/// first that fits is taken:
///
/// 1. a control frame: `type` is `ping` or `welcome` and there is no
///    `identifier`, or `type` is `confirm_subscription` and `identifier` is
///    a string;
/// 2. a message of a known kind: `identifier` is a string, `message` is an
///    object, and the string under its `type` is the name of a kind;
/// 3. a message of another kind: as before, with anything else under the
///    `type` of the message.
pub open spec fn shape_of(doc: JsonView) -> Shape {
    let kind = doc.field("type"@);
    let identifier = doc.field("identifier"@);
    let message = doc.field("message"@);
    if kind == Some(JsonView::Text("ping"@)) && identifier is None {
        Shape::Ping
    } else if kind == Some(JsonView::Text("welcome"@)) && identifier is None {
        Shape::Welcome
    } else if kind == Some(JsonView::Text("confirm_subscription"@)) && identifier is Some
        && identifier->0 is Text {
        Shape::Confirmation(identifier->0->Text_0)
    } else {
        match (identifier, message) {
            (Some(JsonView::Text(channel)), Some(JsonView::Object(members))) => {
                let body = JsonView::Object(members);
                match body.field("type"@) {
                    Some(JsonView::Text(name)) => match Tag::of_name(name) {
                        Some(tag) => Shape::Message(channel, tag, body),
                        None => Shape::Unknown,
                    },
                    Some(_) => Shape::Unknown,
                    None => Shape::Malformed,
                }
            },
            _ => Shape::Malformed,
        }
    }
}

/// The frame that a document is. A document of no shape is an error, and so
/// is one that names its channel by a text that names none.
pub open spec fn envelope_of(doc: JsonView) -> Result<EnvelopeView, ParseErrorView> {
    match shape_of(doc) {
        Shape::Ping => Ok(EnvelopeView::Control(ControlKindView::Ping)),
        Shape::Welcome => Ok(EnvelopeView::Control(ControlKindView::Welcome)),
        Shape::Confirmation(channel) => match identifier_of_text(channel) {
            Ok(identifier) => Ok(
                EnvelopeView::Control(ControlKindView::ConfirmSubscription(identifier)),
            ),
            Err(e) => Err(e),
        },
        Shape::Message(channel, tag, body) => match identifier_of_text(channel) {
            Ok(identifier) => Ok(EnvelopeView::Targeted(identifier, RawMessageView { tag, body })),
            Err(e) => Err(e),
        },
        Shape::Unknown => Ok(EnvelopeView::UnknownTargeted),
        Shape::Malformed => Err(ParseErrorView::Envelope),
    }
}

/// Reads the channel of a frame and wraps what the frame holds.
fn addressed<'a>(channel: &str, tag: Tag, body: &'a Json) -> (r: Result<Envelope<'a>, ParseError>)
    ensures
        result_view(r) == match identifier_of_text(channel@) {
            Ok(identifier) => Ok::<EnvelopeView, ParseErrorView>(
                EnvelopeView::Targeted(
                    identifier,
                    RawMessageView { tag, body: body.deep_view() },
                ),
            ),
            Err(e) => Err::<EnvelopeView, ParseErrorView>(e),
        },
{
    match Identifier::parse(channel) {
        Ok(identifier) => Ok(Envelope::Targeted(identifier, RawMessage { tag, body })),
        Err(e) => Err(e),
    }
}

impl<'a> Envelope<'a> {
    /// Tells the shape of a frame and reads the channel that it names.
    pub fn decode(doc: &'a Json) -> (r: Result<Envelope<'a>, ParseError>)
        ensures
            result_view(r) == envelope_of(doc.deep_view()),
    {
        let kind = doc.field("type");
        let identifier = doc.field("identifier");
        let message = doc.field("message");
        match kind {
            Some(Json::Text(name)) => {
                if same_text(name.as_str(), "ping") && identifier.is_none() {
                    return Ok(Envelope::Control(ControlKind::Ping));
                }
                if same_text(name.as_str(), "welcome") && identifier.is_none() {
                    return Ok(Envelope::Control(ControlKind::Welcome));
                }
                if same_text(name.as_str(), "confirm_subscription") {
                    match identifier {
                        Some(Json::Text(channel)) => {
                            return match Identifier::parse(channel.as_str()) {
                                Ok(identifier) => Ok(
                                    Envelope::Control(ControlKind::ConfirmSubscription(identifier)),
                                ),
                                Err(e) => Err(e),
                            };
                        },
                        _ => {},
                    }
                }
            },
            _ => {},
        }
        match (identifier, message) {
            (Some(Json::Text(channel)), Some(body)) => match body {
                Json::Object(_) => match body.field("type") {
                    Some(Json::Text(name)) => match Tag::from_name(name.as_str()) {
                        Some(tag) => addressed(channel.as_str(), tag, body),
                        None => Ok(Envelope::UnknownTargeted),
                    },
                    Some(_) => Ok(Envelope::UnknownTargeted),
                    None => Err(ParseError::Envelope),
                },
                _ => Err(ParseError::Envelope),
            },
            _ => Err(ParseError::Envelope),
        }
    }
}

/// What the reader of the feed is handed for a frame: an event, nothing for
/// a frame that does not concern it, or an error.
pub open spec fn converted(envelope: EnvelopeView) -> Result<Option<EventView>, EventErrorView> {
    match envelope {
        EnvelopeView::Control(ControlKindView::ConfirmSubscription(identifier)) => Ok(
            Some(EventView { identifier, kind: EventKindView::ConfirmSubscription }),
        ),
        EnvelopeView::Control(_) => Ok(None),
        EnvelopeView::Targeted(identifier, message) => match classified(message) {
            Ok(kind) => Ok(Some(EventView { identifier, kind })),
            Err(e) => Err(e),
        },
        EnvelopeView::UnknownTargeted => Ok(None),
    }
}

impl<'a> Envelope<'a> {
    /// Turns the frame into what the reader of the feed is handed.
    pub fn convert(self) -> (r: Result<Option<Event>, EventError>)
        ensures
            result_view(r) == converted(self.deep_view()),
    {
        match self {
            Envelope::Control(ControlKind::ConfirmSubscription(identifier)) => Ok(
                Some(Event { identifier, kind: EventKind::ConfirmSubscription }),
            ),
            Envelope::Control(_) => Ok(None),
            Envelope::Targeted(identifier, message) => match message.classify() {
                Ok(kind) => Ok(Some(Event { identifier, kind })),
                Err(e) => Err(e),
            },
            Envelope::UnknownTargeted => Ok(None),
        }
    }
}

/// What the reader of the feed is handed for the text of a frame. It
/// depends on the text alone.
pub open spec fn frame_outcome(text: Seq<char>) -> Result<Option<EventView>, EventErrorView> {
    match json_parse(text) {
        Ok(doc) => match envelope_of(doc) {
            Ok(envelope) => converted(envelope),
            Err(source) => Err(EventErrorView::Parse { source }),
        },
        Err(message) => Err(EventErrorView::Parse { source: ParseErrorView::Syntax { message } }),
    }
}

/// Reads one frame: the event that it carries, `None` for a frame that does
/// not concern the reader, or the error to hand on.
pub fn decode_frame(text: &str) -> (r: Result<Option<Event>, EventError>)
    ensures
        result_view(r) == frame_outcome(text@),
{
    match Json::parse(text) {
        Ok(doc) => match Envelope::decode(&doc) {
            Ok(envelope) => envelope.convert(),
            Err(source) => Err(EventError::Parse { source }),
        },
        Err(message) => Err(EventError::Parse { source: ParseError::Syntax { message } }),
    }
}

} // verus!
