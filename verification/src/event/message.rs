//! Messages of a known kind, and what they carry.
//!
//! A message that tells of a race or of a chat message carries it in an
//! object under `data`, beside a string under `message`. There it stands
//! under `race`, `races` or `chat_message`, whatever the kind of the
//! message. A message that reports the failure of a subscription carries
//! the text of the report under `message`.

use vstd::prelude::*;
use crate::decode::required;
use crate::decode::required_member;
use crate::decode::result_view;
use crate::decode::Decode;
use crate::decode::ParseError;
use crate::decode::ParseErrorView;
use crate::event::kind::EventError;
use crate::event::kind::EventErrorView;
use crate::event::kind::EventKind;
use crate::event::kind::EventKindView;
use crate::event::kind::Tag;
use crate::json::Json;
use crate::json::JsonView;
use crate::schema::ChatMessage;
use crate::schema::Race;

verus! {

/// A message of a known kind, with what it carries still to be read.
#[derive(Debug, PartialEq)]
pub struct RawMessage<'a> {
    pub tag: Tag,
    /// The object under `message` in the frame.
    pub body: &'a Json,
}

/// The mathematical value of a [`RawMessage`].
pub struct RawMessageView {
    pub tag: Tag,
    pub body: JsonView,
}

impl<'a> DeepView for RawMessage<'a> {
    type V = RawMessageView;

    open spec fn deep_view(&self) -> RawMessageView {
        RawMessageView { tag: self.tag, body: self.body.deep_view() }
    }
}


/// The object under `data` in a message: it must be there, and hold a
/// string under `message`.
pub open spec fn data_of(body: JsonView) -> Option<JsonView> {
    match body.field("data"@) {
        Some(JsonView::Object(members)) => if required_member::<String>(
            JsonView::Object(members),
            "message"@,
        ) is Some {
            Some(JsonView::Object(members))
        } else {
            None
        },
        _ => None,
    }
}

/// What the object under `data` carries. It stands under `race`, `races` or
/// `chat_message`: the names are tried in this order, and the first under
/// which a `T` stands is taken.
pub open spec fn payload_of<T: Decode>(data: JsonView) -> Option<T::V> {
    if required_member::<T>(data, "race"@) is Some {
        required_member::<T>(data, "race"@)
    } else if required_member::<T>(data, "races"@) is Some {
        required_member::<T>(data, "races"@)
    } else {
        required_member::<T>(data, "chat_message"@)
    }
}

/// Whether the object under `data` carries nothing: each of the three names
/// is missing or `null`.
pub open spec fn payload_absent(data: JsonView) -> bool {
    data.present("race"@) is None && data.present("races"@) is None && data.present(
        "chat_message"@,
    ) is None
}

/// What a message carries: `None` where it does not carry a `T`.
pub open spec fn carried<T: Decode>(body: JsonView) -> Option<T::V> {
    match data_of(body) {
        Some(data) => payload_of::<T>(data),
        None => None,
    }
}

/// What a message carries that may as well carry nothing: `None` where it
/// carries something that is no `T`.
pub open spec fn carried_optional<T: Decode>(body: JsonView) -> Option<Option<T::V>> {
    match data_of(body) {
        Some(data) => match payload_of::<T>(data) {
            Some(value) => Some(Some(value)),
            None => if payload_absent(data) {
                Some(None)
            } else {
                None
            },
        },
        None => None,
    }
}

/// The error of a message whose payload is not what its kind carries.
pub open spec fn payload_error() -> EventErrorView {
    EventErrorView::Parse { source: ParseErrorView::Payload }
}

/// What a message tells: an event's kind, or the failure of the
/// subscription that the service reports, with the text of the report. A
/// message that does not carry what its kind carries is an error of the
/// frame.
pub open spec fn classified(message: RawMessageView) -> Result<EventKindView, EventErrorView> {
    let body = message.body;
    match message.tag {
        Tag::RaceCreated => match carried::<Race>(body) {
            Some(race) => Ok(EventKindView::RaceCreated(race)),
            None => Err(payload_error()),
        },
        Tag::GlobalState => match carried::<Vec<Race>>(body) {
            Some(races) => Ok(EventKindView::GlobalState(races)),
            None => Err(payload_error()),
        },
        Tag::RaceUpdated => match carried::<Race>(body) {
            Some(race) => Ok(EventKindView::RaceUpdated(race)),
            None => Err(payload_error()),
        },
        Tag::NewMessage => match carried::<ChatMessage>(body) {
            Some(chat) => Ok(EventKindView::NewMessage(chat)),
            None => Err(payload_error()),
        },
        Tag::NewAttachment => match carried::<Race>(body) {
            Some(race) => Ok(EventKindView::NewAttachment(race)),
            None => Err(payload_error()),
        },
        Tag::RaceState => match carried::<Race>(body) {
            Some(race) => Ok(EventKindView::RaceState(race)),
            None => Err(payload_error()),
        },
        Tag::RaceStartScheduled => match carried_optional::<Race>(body) {
            Some(race) => Ok(EventKindView::RaceStartScheduled(race)),
            None => Err(payload_error()),
        },
        Tag::RaceEnded => match carried_optional::<Race>(body) {
            Some(race) => Ok(EventKindView::RaceEnded(race)),
            None => Err(payload_error()),
        },
        Tag::RaceEntriesUpdated => match carried_optional::<Race>(body) {
            Some(race) => Ok(EventKindView::RaceEntriesUpdated(race)),
            None => Err(payload_error()),
        },
        Tag::RaceNotFound => match required_member::<String>(body, "message"@) {
            Some(message) => Err(EventErrorView::RaceNotFound { message }),
            None => Err(payload_error()),
        },
        Tag::RaceInvalidJoinToken => match required_member::<String>(body, "message"@) {
            Some(message) => Err(EventErrorView::RaceInvalidJoinToken { message }),
            None => Err(payload_error()),
        },
        Tag::FatalError => match required_member::<String>(body, "message"@) {
            Some(message) => Err(EventErrorView::FatalError { message }),
            None => Err(payload_error()),
        },
        Tag::ConnectionError => match required_member::<String>(body, "message"@) {
            Some(message) => Err(EventErrorView::ConnectionError { message }),
            None => Err(payload_error()),
        },
    }
}

/// Finds the object under `data` in a message.
fn data<'a>(body: &'a Json) -> (r: Option<&'a Json>)
    ensures
        r.deep_view() == data_of(body.deep_view()),
{
    match body.field("data") {
        Some(found) => match found {
            Json::Object(_) => match required::<String>(found, "message") {
                Some(_) => Some(found),
                None => None,
            },
            _ => None,
        },
        None => None,
    }
}

/// Reads what the object under `data` carries.
fn payload<T: Decode>(data: &Json) -> (r: Option<T>)
    ensures
        r.deep_view() == payload_of::<T>(data.deep_view()),
{
    match required::<T>(data, "race") {
        Some(value) => Some(value),
        None => match required::<T>(data, "races") {
            Some(value) => Some(value),
            None => required::<T>(data, "chat_message"),
        },
    }
}

/// Reads what a message carries.
fn carry<T: Decode>(body: &Json) -> (r: Result<T, EventError>)
    ensures
        result_view(r) == match carried::<T>(body.deep_view()) {
            Some(value) => Ok::<T::V, EventErrorView>(value),
            None => Err::<T::V, EventErrorView>(payload_error()),
        },
{
    match data(body) {
        Some(found) => match payload::<T>(found) {
            Some(value) => Ok(value),
            None => Err(EventError::Parse { source: ParseError::Payload }),
        },
        None => Err(EventError::Parse { source: ParseError::Payload }),
    }
}

/// Reads what a message carries that may as well carry nothing.
fn carry_optional<T: Decode>(body: &Json) -> (r: Result<Option<T>, EventError>)
    ensures
        result_view(r) == match carried_optional::<T>(body.deep_view()) {
            Some(value) => Ok::<Option<T::V>, EventErrorView>(value),
            None => Err::<Option<T::V>, EventErrorView>(payload_error()),
        },
{
    match data(body) {
        Some(found) => match payload::<T>(found) {
            Some(value) => Ok(Some(value)),
            None => {
                if found.present("race").is_none() && found.present("races").is_none()
                    && found.present("chat_message").is_none() {
                    Ok(None)
                } else {
                    Err(EventError::Parse { source: ParseError::Payload })
                }
            },
        },
        None => Err(EventError::Parse { source: ParseError::Payload }),
    }
}

/// Reads the text of a report.
fn report(body: &Json) -> (r: Result<String, EventError>)
    ensures
        result_view(r) == match required_member::<String>(body.deep_view(), "message"@) {
            Some(message) => Ok::<Seq<char>, EventErrorView>(message),
            None => Err::<Seq<char>, EventErrorView>(payload_error()),
        },
{
    match required::<String>(body, "message") {
        Some(message) => Ok(message),
        None => Err(EventError::Parse { source: ParseError::Payload }),
    }
}

impl<'a> RawMessage<'a> {
    /// Reads what the message tells.
    pub fn classify(&self) -> (r: Result<EventKind, EventError>)
        ensures
            result_view(r) == classified(self.deep_view()),
    {
        match self.tag {
            Tag::RaceCreated => Ok(EventKind::RaceCreated(carry::<Race>(self.body)?)),
            Tag::GlobalState => Ok(EventKind::GlobalState(carry::<Vec<Race>>(self.body)?)),
            Tag::RaceUpdated => Ok(EventKind::RaceUpdated(carry::<Race>(self.body)?)),
            Tag::NewMessage => Ok(EventKind::NewMessage(carry::<ChatMessage>(self.body)?)),
            Tag::NewAttachment => Ok(EventKind::NewAttachment(carry::<Race>(self.body)?)),
            Tag::RaceState => Ok(EventKind::RaceState(carry::<Race>(self.body)?)),
            Tag::RaceStartScheduled => Ok(
                EventKind::RaceStartScheduled(carry_optional::<Race>(self.body)?),
            ),
            Tag::RaceEnded => Ok(EventKind::RaceEnded(carry_optional::<Race>(self.body)?)),
            Tag::RaceEntriesUpdated => Ok(
                EventKind::RaceEntriesUpdated(carry_optional::<Race>(self.body)?),
            ),
            Tag::RaceNotFound => Err(EventError::RaceNotFound { message: report(self.body)? }),
            Tag::RaceInvalidJoinToken => Err(
                EventError::RaceInvalidJoinToken { message: report(self.body)? },
            ),
            Tag::FatalError => Err(EventError::FatalError { message: report(self.body)? }),
            Tag::ConnectionError => Err(
                EventError::ConnectionError { message: report(self.body)? },
            ),
        }
    }
}

} // verus!
