//! What the reader of the feed is handed: events, and the errors that come
//! in their place.

use vstd::prelude::*;
use crate::decode::ParseError;
use crate::decode::ParseErrorView;
use crate::event::identifier::Identifier;
use crate::event::identifier::IdentifierView;
use crate::json::same_text;
use crate::schema::ChatMessage;
use crate::schema::ChatMessageView;
use crate::schema::Race;
use crate::schema::RaceView;

verus! {

/// The kind of a message, by the name under `type`.
#[derive(Clone, Copy, Debug, PartialEq, Eq, Structural)]
pub enum Tag {
    RaceCreated,
    GlobalState,
    RaceUpdated,
    NewMessage,
    NewAttachment,
    RaceState,
    RaceNotFound,
    RaceInvalidJoinToken,
    RaceStartScheduled,
    RaceEnded,
    RaceEntriesUpdated,
    FatalError,
    ConnectionError,
}

impl DeepView for Tag {
    type V = Tag;

    open spec fn deep_view(&self) -> Tag {
        *self
    }
}

impl Tag {
    /// The name of the kind in a frame.
    pub open spec fn name(self) -> Seq<char> {
        match self {
            Tag::RaceCreated => "race_created"@,
            Tag::GlobalState => "global_state"@,
            Tag::RaceUpdated => "race_updated"@,
            Tag::NewMessage => "new_message"@,
            Tag::NewAttachment => "new_attachment"@,
            Tag::RaceState => "race_state"@,
            Tag::RaceNotFound => "race_not_found"@,
            Tag::RaceInvalidJoinToken => "race_invalid_join_token"@,
            Tag::RaceStartScheduled => "race_start_scheduled"@,
            Tag::RaceEnded => "race_ended"@,
            Tag::RaceEntriesUpdated => "race_entries_updated"@,
            Tag::FatalError => "fatal_error"@,
            Tag::ConnectionError => "connection_error"@,
        }
    }

    /// The kind that a name stands for, or `None` for a name that is not
    /// known.
    pub open spec fn of_name(name: Seq<char>) -> Option<Tag> {
        if name == "race_created"@ {
            Some(Tag::RaceCreated)
        } else if name == "global_state"@ {
            Some(Tag::GlobalState)
        } else if name == "race_updated"@ {
            Some(Tag::RaceUpdated)
        } else if name == "new_message"@ {
            Some(Tag::NewMessage)
        } else if name == "new_attachment"@ {
            Some(Tag::NewAttachment)
        } else if name == "race_state"@ {
            Some(Tag::RaceState)
        } else if name == "race_not_found"@ {
            Some(Tag::RaceNotFound)
        } else if name == "race_invalid_join_token"@ {
            Some(Tag::RaceInvalidJoinToken)
        } else if name == "race_start_scheduled"@ {
            Some(Tag::RaceStartScheduled)
        } else if name == "race_ended"@ {
            Some(Tag::RaceEnded)
        } else if name == "race_entries_updated"@ {
            Some(Tag::RaceEntriesUpdated)
        } else if name == "fatal_error"@ {
            Some(Tag::FatalError)
        } else if name == "connection_error"@ {
            Some(Tag::ConnectionError)
        } else {
            None
        }
    }

    /// Whether a message of this kind reports that the subscription has
    /// failed, and carries nothing but the report.
    pub open spec fn is_terminal(self) -> bool {
        self == Tag::RaceNotFound || self == Tag::RaceInvalidJoinToken || self == Tag::FatalError
            || self == Tag::ConnectionError
    }

    /// Looks a kind up by its name.
    pub fn from_name(name: &str) -> (r: Option<Tag>)
        ensures
            r == Tag::of_name(name@),
    {
        if same_text(name, "race_created") {
            Some(Tag::RaceCreated)
        } else if same_text(name, "global_state") {
            Some(Tag::GlobalState)
        } else if same_text(name, "race_updated") {
            Some(Tag::RaceUpdated)
        } else if same_text(name, "new_message") {
            Some(Tag::NewMessage)
        } else if same_text(name, "new_attachment") {
            Some(Tag::NewAttachment)
        } else if same_text(name, "race_state") {
            Some(Tag::RaceState)
        } else if same_text(name, "race_not_found") {
            Some(Tag::RaceNotFound)
        } else if same_text(name, "race_invalid_join_token") {
            Some(Tag::RaceInvalidJoinToken)
        } else if same_text(name, "race_start_scheduled") {
            Some(Tag::RaceStartScheduled)
        } else if same_text(name, "race_ended") {
            Some(Tag::RaceEnded)
        } else if same_text(name, "race_entries_updated") {
            Some(Tag::RaceEntriesUpdated)
        } else if same_text(name, "fatal_error") {
            Some(Tag::FatalError)
        } else if same_text(name, "connection_error") {
            Some(Tag::ConnectionError)
        } else {
            None
        }
    }
}

/// What an event tells.
#[derive(Debug, PartialEq)]
pub enum EventKind {
    /// A race was created.
    RaceCreated(Race),
    /// The races that are under way.
    GlobalState(Vec<Race>),
    /// A race was changed.
    RaceUpdated(Race),
    /// A chat message was sent in a race.
    NewMessage(ChatMessage),
    /// A file was attached to a race.
    NewAttachment(Race),
    /// The race as it stands.
    RaceState(Race),
    /// The start of a race was set.
    RaceStartScheduled(Option<Race>),
    /// A race is over.
    RaceEnded(Option<Race>),
    /// The entries of a race have changed.
    RaceEntriesUpdated(Option<Race>),
    /// The service confirms the subscription to the channel.
    ConfirmSubscription,
}

/// The mathematical value of an [`EventKind`].
pub enum EventKindView {
    RaceCreated(RaceView),
    GlobalState(Seq<RaceView>),
    RaceUpdated(RaceView),
    NewMessage(ChatMessageView),
    NewAttachment(RaceView),
    RaceState(RaceView),
    RaceStartScheduled(Option<RaceView>),
    RaceEnded(Option<RaceView>),
    RaceEntriesUpdated(Option<RaceView>),
    ConfirmSubscription,
}

impl DeepView for EventKind {
    type V = EventKindView;

    open spec fn deep_view(&self) -> EventKindView {
        match self {
            EventKind::RaceCreated(race) => EventKindView::RaceCreated(race.deep_view()),
            EventKind::GlobalState(races) => EventKindView::GlobalState(races.deep_view()),
            EventKind::RaceUpdated(race) => EventKindView::RaceUpdated(race.deep_view()),
            EventKind::NewMessage(message) => EventKindView::NewMessage(message.deep_view()),
            EventKind::NewAttachment(race) => EventKindView::NewAttachment(race.deep_view()),
            EventKind::RaceState(race) => EventKindView::RaceState(race.deep_view()),
            EventKind::RaceStartScheduled(race) => EventKindView::RaceStartScheduled(
                race.deep_view(),
            ),
            EventKind::RaceEnded(race) => EventKindView::RaceEnded(race.deep_view()),
            EventKind::RaceEntriesUpdated(race) => EventKindView::RaceEntriesUpdated(
                race.deep_view(),
            ),
            EventKind::ConfirmSubscription => EventKindView::ConfirmSubscription,
        }
    }
}

/// What the reader of the feed is handed for one frame that concerns it.
#[derive(Debug, PartialEq)]
pub struct Event {
    pub identifier: Identifier,
    pub kind: EventKind,
}

/// The mathematical value of an [`Event`].
pub struct EventView {
    pub identifier: IdentifierView,
    pub kind: EventKindView,
}

impl DeepView for Event {
    type V = EventView;

    open spec fn deep_view(&self) -> EventView {
        EventView { identifier: self.identifier.deep_view(), kind: self.kind.deep_view() }
    }
}

/// What the reader of the feed is handed in place of an event.
#[derive(Debug, PartialEq)]
#[allow(inconsistent_fields)]
pub enum EventError {
    /// No Race found for the given ID.
    RaceNotFound { message: String },
    /// The join token is not valid for the Race.
    RaceInvalidJoinToken { message: String },
    /// An error occurred when processing the message.
    FatalError { message: String },
    /// There was a connection error. The OAuth Token might've been invalid.
    ConnectionError { message: String },
    /// The message could not be parsed.
    Parse { source: ParseError },
    /// Failed to receive the message. The source is what the connection
    /// said of the failure.
    Receive { source: String },
}

/// The mathematical value of an [`EventError`].
#[allow(inconsistent_fields)]
pub enum EventErrorView {
    RaceNotFound { message: Seq<char> },
    RaceInvalidJoinToken { message: Seq<char> },
    FatalError { message: Seq<char> },
    ConnectionError { message: Seq<char> },
    Parse { source: ParseErrorView },
    Receive { source: Seq<char> },
}

impl DeepView for EventError {
    type V = EventErrorView;

    open spec fn deep_view(&self) -> EventErrorView {
        match self {
            EventError::RaceNotFound { message } => EventErrorView::RaceNotFound {
                message: message@,
            },
            EventError::RaceInvalidJoinToken { message } => EventErrorView::RaceInvalidJoinToken {
                message: message@,
            },
            EventError::FatalError { message } => EventErrorView::FatalError { message: message@ },
            EventError::ConnectionError { message } => EventErrorView::ConnectionError {
                message: message@,
            },
            EventError::Parse { source } => EventErrorView::Parse { source: source.deep_view() },
            EventError::Receive { source } => EventErrorView::Receive { source: source@ },
        }
    }
}

impl EventErrorView {
    /// The error in words: what the service reported, or what went wrong
    /// here.
    pub open spec fn message(self) -> Seq<char> {
        match self {
            EventErrorView::RaceNotFound { message } => message,
            EventErrorView::RaceInvalidJoinToken { message } => message,
            EventErrorView::FatalError { message } => message,
            EventErrorView::ConnectionError { message } => message,
            EventErrorView::Parse { .. } => "The message could not be parsed."@,
            EventErrorView::Receive { .. } => "Failed to receive the message."@,
        }
    }
}

impl EventError {
    /// The error in words: what the service reported, or what went wrong
    /// here.
    pub fn message(&self) -> (r: String)
        ensures
            r@ == self.deep_view().message(),
    {
        match self {
            EventError::RaceNotFound { message } => message.clone(),
            EventError::RaceInvalidJoinToken { message } => message.clone(),
            EventError::FatalError { message } => message.clone(),
            EventError::ConnectionError { message } => message.clone(),
            EventError::Parse { .. } => "The message could not be parsed.".to_owned(),
            EventError::Receive { .. } => "Failed to receive the message.".to_owned(),
        }
    }
}

} // verus!
