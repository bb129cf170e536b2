//! The commands that a client sends on the feed.

use vstd::prelude::*;
use crate::event::identifier::Identifier;
use crate::event::identifier::IdentifierView;
use crate::json::quote;
use crate::json::quoted;

verus! {

/// A command for the service.
#[derive(Debug, PartialEq)]
pub enum Command {
    /// Asks for the frames of a channel.
    Subscribe { identifier: Identifier },
}

/// The mathematical value of a [`Command`].
pub enum CommandView {
    Subscribe { identifier: IdentifierView },
}

impl DeepView for Command {
    type V = CommandView;

    open spec fn deep_view(&self) -> CommandView {
        match self {
            Command::Subscribe { identifier } => CommandView::Subscribe {
                identifier: identifier.deep_view(),
            },
        }
    }
}

impl CommandView {
    /// The frame that carries the command. The channel is named by its
    /// text, which stands in the frame as a string.
    pub open spec fn wire(self) -> Seq<char> {
        match self {
            CommandView::Subscribe { identifier } => {
                "{\"command\":\"subscribe\",\"identifier\":"@ + quoted(identifier.wire()) + "}"@
            },
        }
    }
}

impl Command {
    /// Writes the frame that carries the command.
    pub fn encode(&self) -> (r: String)
        ensures
            r@ == self.deep_view().wire(),
    {
        match self {
            Command::Subscribe { identifier } => {
                let channel = identifier.encode();
                let mut out = "{\"command\":\"subscribe\",\"identifier\":".to_owned();
                out.append(quote(channel.as_str()).as_str());
                out.append("}");
                out
            },
        }
    }
}

} // verus!
