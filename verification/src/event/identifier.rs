//! The channel that a frame concerns, and the text by which a frame names
//! it.
//!
//! A channel is named by a JSON document of its own, which stands in a
//! frame as a string.

use vstd::prelude::*;
use crate::decode::required;
use crate::decode::required_member;
use crate::decode::Decode;
use crate::decode::ParseError;
use crate::decode::ParseErrorView;
use crate::id::hyphenated;
use crate::id::uuid_parse;
use crate::id::Uuid;
use crate::json::json_parse;
use crate::json::member_from;
use crate::json::quote;
use crate::json::quoted;
use crate::json::same_text;
use crate::json::Json;
use crate::json::JsonView;

verus! {

/// The channel that a frame concerns: the feed of all races, or one race.
#[derive(Debug, PartialEq)]
pub enum Identifier {
    /// The feed of all races.
    GlobalRaceChannel,
    /// One race, with the token that lets its feed be joined.
    RaceChannel { race_id: Uuid, join_token: String },
}

/// The mathematical value of an [`Identifier`].
pub enum IdentifierView {
    GlobalRaceChannel,
    RaceChannel { race_id: Uuid, join_token: Seq<char> },
}

impl DeepView for Identifier {
    type V = IdentifierView;

    open spec fn deep_view(&self) -> IdentifierView {
        match self {
            Identifier::GlobalRaceChannel => IdentifierView::GlobalRaceChannel,
            Identifier::RaceChannel { race_id, join_token } => IdentifierView::RaceChannel {
                race_id: *race_id,
                join_token: join_token@,
            },
        }
    }
}

/// The name of the feed of all races.
pub open spec fn global_channel() -> Seq<char> {
    "Api::V4::GlobalRaceChannel"@
}

/// The name of the channel of one race.
pub open spec fn race_channel() -> Seq<char> {
    "Api::V4::RaceChannel"@
}

impl Decode for Identifier {
    open spec fn decoded(doc: JsonView) -> Option<IdentifierView> {
        match required_member::<String>(doc, "channel"@) {
            Some(name) => if name == global_channel() {
                Some(IdentifierView::GlobalRaceChannel)
            } else if name == race_channel() {
                match (
                    required_member::<Uuid>(doc, "race_id"@),
                    required_member::<String>(doc, "join_token"@),
                ) {
                    (Some(race_id), Some(join_token)) => Some(
                        IdentifierView::RaceChannel { race_id, join_token },
                    ),
                    _ => None,
                }
            } else {
                None
            },
            None => None,
        }
    }

    fn from_json(doc: &Json) -> (r: Option<Identifier>) {
        let name = required::<String>(doc, "channel")?;
        if same_text(name.as_str(), "Api::V4::GlobalRaceChannel") {
            Some(Identifier::GlobalRaceChannel)
        } else if same_text(name.as_str(), "Api::V4::RaceChannel") {
            let race_id = required::<Uuid>(doc, "race_id")?;
            let join_token = required::<String>(doc, "join_token")?;
            Some(Identifier::RaceChannel { race_id, join_token })
        } else {
            None
        }
    }
}

/// The channel that a text names: the text is a JSON document of its own,
/// and that document names the channel.
pub open spec fn identifier_of_text(text: Seq<char>) -> Result<IdentifierView, ParseErrorView> {
    match json_parse(text) {
        Ok(doc) => match Identifier::decoded(doc) {
            Some(identifier) => Ok(identifier),
            None => Err(ParseErrorView::Channel),
        },
        Err(message) => Err(ParseErrorView::Syntax { message }),
    }
}

impl IdentifierView {
    /// The text by which the channel is named in a frame.
    pub open spec fn wire(self) -> Seq<char> {
        match self {
            IdentifierView::GlobalRaceChannel => "{\"channel\":\"Api::V4::GlobalRaceChannel\"}"@,
            IdentifierView::RaceChannel { race_id, join_token } => {
                "{\"channel\":\"Api::V4::RaceChannel\",\"race_id\":"@ + quoted(
                    hyphenated(race_id.0),
                ) + ",\"join_token\":"@ + quoted(join_token) + "}"@
            },
        }
    }

    /// The document that the text of [`Self::wire`] writes down.
    pub open spec fn document(self) -> JsonView {
        match self {
            IdentifierView::GlobalRaceChannel => JsonView::Object(
                seq![("channel"@, JsonView::Text(global_channel()))],
            ),
            IdentifierView::RaceChannel { race_id, join_token } => JsonView::Object(
                seq![
                    ("channel"@, JsonView::Text(race_channel())),
                    ("race_id"@, JsonView::Text(hyphenated(race_id.0))),
                    ("join_token"@, JsonView::Text(join_token)),
                ],
            ),
        }
    }
}

impl Identifier {
    /// Writes the channel as it is named in a frame.
    ///
    /// The channel is read back from what is written: the document that the
    /// text writes down describes this channel.
    pub fn encode(&self) -> (r: String)
        ensures
            r@ == self.deep_view().wire(),
            Identifier::decoded(self.deep_view().document()) == Some(self.deep_view()),
    {
        match self {
            Identifier::GlobalRaceChannel => {
                proof {
                    lemma_document_names_channel(self.deep_view());
                }
                "{\"channel\":\"Api::V4::GlobalRaceChannel\"}".to_owned()
            },
            Identifier::RaceChannel { race_id, join_token } => {
                let id = race_id.hyphenated();
                proof {
                    lemma_document_names_channel(self.deep_view());
                }
                let mut out = "{\"channel\":\"Api::V4::RaceChannel\",\"race_id\":".to_owned();
                out.append(quote(id.as_str()).as_str());
                out.append(",\"join_token\":");
                out.append(quote(join_token.as_str()).as_str());
                out.append("}");
                out
            },
        }
    }

    /// Reads the channel that a text names.
    pub fn parse(text: &str) -> (r: Result<Identifier, ParseError>)
        ensures
            match r {
                Ok(identifier) => identifier_of_text(text@) == Ok::<
                    IdentifierView,
                    ParseErrorView,
                >(identifier.deep_view()),
                Err(e) => identifier_of_text(text@) == Err::<IdentifierView, ParseErrorView>(
                    e.deep_view(),
                ),
            },
    {
        match Json::parse(text) {
            Ok(doc) => match Identifier::from_json(&doc) {
                Some(identifier) => Ok(identifier),
                None => Err(ParseError::Channel),
            },
            Err(message) => Err(ParseError::Syntax { message }),
        }
    }
}

/// The document of a channel describes that channel, where the identifier
/// of its race is read back from its hyphenated form.
proof fn lemma_document_names_channel(identifier: IdentifierView)
    requires
        identifier matches IdentifierView::RaceChannel { race_id, .. } ==> uuid_parse(
            hyphenated(race_id.0),
        ) == Some(race_id.0),
    ensures
        Identifier::decoded(identifier.document()) == Some(identifier),
{
    lemma_channel_names_differ();
    reveal_with_fuel(member_from, 4);
}

/// The names of the members of a channel, and the names of the two
/// channels, are all different.
pub proof fn lemma_channel_names_differ()
    ensures
        global_channel() != race_channel(),
        "channel"@ != "race_id"@,
        "channel"@ != "join_token"@,
        "race_id"@ != "join_token"@,
{
    reveal_strlit("Api::V4::GlobalRaceChannel");
    reveal_strlit("Api::V4::RaceChannel");
    reveal_strlit("channel");
    reveal_strlit("race_id");
    reveal_strlit("join_token");
    assert("Api::V4::GlobalRaceChannel"@.len() == 26);
    assert("Api::V4::RaceChannel"@.len() == 20);
    assert("channel"@.len() == 7);
    assert("race_id"@[0] == 'r');
    assert("channel"@[0] == 'c');
    assert("join_token"@.len() == 10);
}

} // verus!
