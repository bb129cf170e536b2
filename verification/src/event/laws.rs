//! What holds of every frame and of every feed.

use vstd::prelude::*;
use crate::decode::ParseErrorView;
use crate::event::envelope::frame_outcome;
use crate::event::envelope::shape_of;
use crate::event::envelope::Shape;
use crate::event::feed::pulled;
use crate::event::feed::FrameView;
use crate::event::feed::PullView;
use crate::event::identifier::identifier_of_text;
use crate::event::identifier::IdentifierView;
use crate::event::kind::EventErrorView;
use crate::event::kind::EventKindView;
use crate::event::kind::EventView;
use crate::event::kind::Tag;
use crate::json::json_parse;
use crate::json::JsonView;

verus! {

/// The names `ping`, `welcome` and `confirm_subscription` are all
/// different.
pub proof fn lemma_control_names_differ()
    ensures
        "ping"@ != "welcome"@,
        "ping"@ != "confirm_subscription"@,
        "welcome"@ != "confirm_subscription"@,
{
    reveal_strlit("ping");
    reveal_strlit("welcome");
    reveal_strlit("confirm_subscription");
    assert("ping"@.len() == 4);
    assert("welcome"@.len() == 7);
    assert("confirm_subscription"@.len() == 20);
}

/// Every kind of message is found again by its name.
pub proof fn lemma_tag_is_found_by_name(tag: Tag)
    ensures
        Tag::of_name(tag.name()) == Some(tag),
{
    reveal_strlit("race_created");
    reveal_strlit("global_state");
    reveal_strlit("race_updated");
    reveal_strlit("new_message");
    reveal_strlit("new_attachment");
    reveal_strlit("race_state");
    reveal_strlit("race_not_found");
    reveal_strlit("race_invalid_join_token");
    reveal_strlit("race_start_scheduled");
    reveal_strlit("race_ended");
    reveal_strlit("race_entries_updated");
    reveal_strlit("fatal_error");
    reveal_strlit("connection_error");
    assert("race_created"@.len() == 12 && "race_created"@[5] == 'c');
    assert("global_state"@.len() == 12 && "global_state"@[5] == 'l');
    assert("race_updated"@.len() == 12 && "race_updated"@[5] == 'u');
    assert("new_message"@.len() == 11 && "new_message"@[0] == 'n');
    assert("new_attachment"@.len() == 14 && "new_attachment"@[0] == 'n');
    assert("race_state"@.len() == 10 && "race_state"@[5] == 's');
    assert("race_not_found"@.len() == 14 && "race_not_found"@[0] == 'r');
    assert("race_invalid_join_token"@.len() == 23);
    assert("race_start_scheduled"@.len() == 20 && "race_start_scheduled"@[5] == 's');
    assert("race_ended"@.len() == 10 && "race_ended"@[5] == 'e');
    assert("race_entries_updated"@.len() == 20 && "race_entries_updated"@[5] == 'e');
    assert("fatal_error"@.len() == 11 && "fatal_error"@[0] == 'f');
    assert("connection_error"@.len() == 16);
}

/// A frame that says `ping` or `welcome` hands the reader nothing, and the
/// feed stays open for the next frame.
pub proof fn lemma_ping_and_welcome_are_passed_over(text: Seq<char>, doc: JsonView)
    requires
        json_parse(text) == Ok::<JsonView, Seq<char>>(doc),
        doc.field("type"@) == Some(JsonView::Text("ping"@)) || doc.field("type"@) == Some(
            JsonView::Text("welcome"@),
        ),
        doc.field("identifier"@) is None,
    ensures
        frame_outcome(text) == Ok::<Option<EventView>, EventErrorView>(None),
        pulled(true, FrameView::Text(text)) == (true, PullView::Again),
{
}

/// A frame that confirms a subscription, and names its channel by a text
/// that names one, hands the reader exactly the confirmation for that
/// channel.
pub proof fn lemma_confirmation_is_handed_on(
    text: Seq<char>,
    doc: JsonView,
    channel: Seq<char>,
    identifier: IdentifierView,
)
    requires
        json_parse(text) == Ok::<JsonView, Seq<char>>(doc),
        doc.field("type"@) == Some(JsonView::Text("confirm_subscription"@)),
        doc.field("identifier"@) == Some(JsonView::Text(channel)),
        identifier_of_text(channel) == Ok::<IdentifierView, ParseErrorView>(identifier),
    ensures
        pulled(true, FrameView::Text(text)) == (
            true,
            PullView::Item(
                Ok(EventView { identifier, kind: EventKindView::ConfirmSubscription }),
            ),
        ),
{
    lemma_control_names_differ();
}

/// The error that stands for a report of the service.
pub open spec fn reported(tag: Tag, report: Seq<char>) -> EventErrorView
    recommends
        tag.is_terminal(),
{
    match tag {
        Tag::RaceNotFound => EventErrorView::RaceNotFound { message: report },
        Tag::RaceInvalidJoinToken => EventErrorView::RaceInvalidJoinToken { message: report },
        Tag::FatalError => EventErrorView::FatalError { message: report },
        _ => EventErrorView::ConnectionError { message: report },
    }
}

/// A frame for a channel whose message reports that the subscription has
/// failed hands the reader exactly one error, which carries the text of
/// the report, and the feed stays open for the next frame.
///
/// The frame is no confirmation, and the text by which it names its channel
/// names one.
pub proof fn lemma_report_is_handed_on(
    text: Seq<char>,
    doc: JsonView,
    channel: Seq<char>,
    identifier: IdentifierView,
    body: JsonView,
    tag: Tag,
    report: Seq<char>,
)
    requires
        json_parse(text) == Ok::<JsonView, Seq<char>>(doc),
        doc.field("type"@) != Some(JsonView::Text("confirm_subscription"@)),
        doc.field("identifier"@) == Some(JsonView::Text(channel)),
        identifier_of_text(channel) == Ok::<IdentifierView, ParseErrorView>(identifier),
        doc.field("message"@) == Some(body),
        body is Object,
        body.field("type"@) == Some(JsonView::Text(tag.name())),
        tag.is_terminal(),
        body.field("message"@) == Some(JsonView::Text(report)),
    ensures
        pulled(true, FrameView::Text(text)) == (
            true,
            PullView::Item(Err(reported(tag, report))),
        ),
{
    lemma_tag_is_found_by_name(tag);
}

/// A frame for a channel whose message is of a kind that is not known
/// hands the reader nothing, and the feed stays open for the next frame.
///
/// The frame is no confirmation.
pub proof fn lemma_unknown_kind_is_passed_over(
    text: Seq<char>,
    doc: JsonView,
    channel: Seq<char>,
    body: JsonView,
    kind: JsonView,
)
    requires
        json_parse(text) == Ok::<JsonView, Seq<char>>(doc),
        doc.field("type"@) != Some(JsonView::Text("confirm_subscription"@)),
        doc.field("identifier"@) == Some(JsonView::Text(channel)),
        doc.field("message"@) == Some(body),
        body is Object,
        body.field("type"@) == Some(kind),
        kind matches JsonView::Text(name) ==> Tag::of_name(name) is None,
    ensures
        frame_outcome(text) == Ok::<Option<EventView>, EventErrorView>(None),
        pulled(true, FrameView::Text(text)) == (true, PullView::Again),
{
}

/// A frame that names its channel by a text that names none hands the
/// reader that error, whether the frame confirms a subscription or carries
/// a message of a known kind.
pub proof fn lemma_unnamed_channel_is_an_error(
    text: Seq<char>,
    doc: JsonView,
    channel: Seq<char>,
    source: ParseErrorView,
)
    requires
        json_parse(text) == Ok::<JsonView, Seq<char>>(doc),
        match shape_of(doc) {
            Shape::Confirmation(named) => named == channel,
            Shape::Message(named, _, _) => named == channel,
            _ => false,
        },
        identifier_of_text(channel) == Err::<IdentifierView, ParseErrorView>(source),
    ensures
        frame_outcome(text) == Err::<Option<EventView>, EventErrorView>(
            EventErrorView::Parse { source },
        ),
{
}

/// No frame of text closes the feed: whatever comes of it, an event, an
/// error or nothing, the feed is open for the next frame.
pub proof fn lemma_text_keeps_the_feed_open(text: Seq<char>)
    ensures
        pulled(true, FrameView::Text(text)).0,
        !(pulled(true, FrameView::Text(text)).1 is Finished),
{
}

/// Reading the same text twice comes to the same thing: what a frame gives
/// depends on nothing but its text.
pub proof fn lemma_same_text_same_outcome(first: Seq<char>, second: Seq<char>, open: bool)
    requires
        first == second,
    ensures
        frame_outcome(first) == frame_outcome(second),
        pulled(open, FrameView::Text(first)) == pulled(open, FrameView::Text(second)),
{
}

/// A closed feed stays closed and hands nothing on, and a failed read
/// closes an open feed behind the one error that it hands on.
pub proof fn lemma_closed_feed_has_ended(frame: FrameView, source: Seq<char>)
    ensures
        pulled(false, frame) == (false, PullView::Finished),
        pulled(true, FrameView::Failed(source)) == (
            false,
            PullView::Item(Err(EventErrorView::Receive { source })),
        ),
        pulled(true, FrameView::Ended) == (false, PullView::Finished),
{
}

} // verus!
