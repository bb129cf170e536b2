//! Reading a feed frame by frame.
//!
//! The connection is read elsewhere. [`Events`] is told what each read gave
//! and says what comes of it, and keeps track of whether the feed is still
//! open.

use vstd::prelude::*;
use crate::client::Error;
use crate::client::ErrorView;
use crate::decode::result_view;
use crate::event::command::Command;
use crate::event::command::CommandView;
use crate::event::envelope::decode_frame;
use crate::event::envelope::frame_outcome;
use crate::event::identifier::Identifier;
use crate::event::kind::Event;
use crate::event::kind::EventError;
use crate::event::kind::EventErrorView;
use crate::event::kind::EventView;
use crate::request::address_at;
use crate::request::Address;
use crate::request::Method;
use crate::request::Request;
use crate::request::RequestView;

verus! {

/// What one read of the connection gave.
#[derive(Debug, PartialEq)]
pub enum Frame {
    /// A frame of text.
    Text(String),
    /// A frame of another kind: binary, or one that keeps the connection
    /// itself going.
    Other,
    /// The read failed; the text says how.
    Failed(String),
    /// The connection has ended.
    Ended,
}

/// The mathematical value of a [`Frame`].
pub enum FrameView {
    Text(Seq<char>),
    Other,
    Failed(Seq<char>),
    Ended,
}

impl DeepView for Frame {
    type V = FrameView;

    open spec fn deep_view(&self) -> FrameView {
        match self {
            Frame::Text(text) => FrameView::Text(text@),
            Frame::Other => FrameView::Other,
            Frame::Failed(reason) => FrameView::Failed(reason@),
            Frame::Ended => FrameView::Ended,
        }
    }
}

/// What comes of one frame for the reader of the feed.
#[derive(Debug, PartialEq)]
pub enum Pull {
    /// One item to hand on.
    Item(Result<Event, EventError>),
    /// Nothing to hand on: read the next frame.
    Again,
    /// The feed has ended: there are no more items.
    Finished,
}

/// The mathematical value of a [`Pull`].
pub enum PullView {
    Item(Result<EventView, EventErrorView>),
    Again,
    Finished,
}

impl DeepView for Pull {
    type V = PullView;

    open spec fn deep_view(&self) -> PullView {
        match self {
            Pull::Item(item) => PullView::Item(result_view(*item)),
            Pull::Again => PullView::Again,
            Pull::Finished => PullView::Finished,
        }
    }
}

/// One step of reading a feed: whether the feed is open afterwards, and
/// what comes of the frame.
///
/// An open feed hands on one item for a frame of text that concerns the
/// reader, an event or an error, and stays open. It passes over every
/// other frame. When the read fails it hands on that one error and closes;
/// when the connection ends it closes. A closed feed has ended, whatever is
/// read.
pub open spec fn pulled(open: bool, frame: FrameView) -> (bool, PullView) {
    if !open {
        (false, PullView::Finished)
    } else {
        match frame {
            FrameView::Text(text) => match frame_outcome(text) {
                Ok(Some(event)) => (true, PullView::Item(Ok(event))),
                Ok(None) => (true, PullView::Again),
                Err(e) => (true, PullView::Item(Err(e))),
            },
            FrameView::Other => (true, PullView::Again),
            FrameView::Failed(source) => (
                false,
                PullView::Item(Err(EventErrorView::Receive { source })),
            ),
            FrameView::Ended => (false, PullView::Finished),
        }
    }
}

/// The reading side of a feed: open until the connection fails or ends, or
/// the feed is closed, and closed from then on.
#[derive(Debug, PartialEq)]
pub struct Events {
    open: bool,
}

impl Events {
    /// Whether the feed is open.
    pub closed spec fn opened(&self) -> bool {
        self.open
    }

    /// A feed on a connection that has just been made.
    pub fn new() -> (r: Events)
        ensures
            r.opened(),
    {
        Events { open: true }
    }

    /// Whether the feed is open: whether there is a point in reading the
    /// connection.
    pub fn is_open(&self) -> (r: bool)
        ensures
            r == self.opened(),
    {
        self.open
    }

    /// Takes what one read of the connection gave and says what comes of
    /// it for the reader.
    pub fn pull(&mut self, frame: Frame) -> (r: Pull)
        ensures
            (final(self).opened(), r.deep_view()) == pulled(
                old(self).opened(),
                frame.deep_view(),
            ),
    {
        if !self.open {
            return Pull::Finished;
        }
        match frame {
            Frame::Text(text) => match decode_frame(text.as_str()) {
                Ok(Some(event)) => Pull::Item(Ok(event)),
                Ok(None) => Pull::Again,
                Err(e) => Pull::Item(Err(e)),
            },
            Frame::Other => Pull::Again,
            Frame::Failed(source) => {
                self.open = false;
                Pull::Item(Err(EventError::Receive { source }))
            },
            Frame::Ended => {
                self.open = false;
                Pull::Finished
            },
        }
    }

    /// Writes the frame by which a command is sent.
    pub fn send(&self, command: Command) -> (r: String)
        ensures
            r@ == command.deep_view().wire(),
    {
        command.encode()
    }

    /// Writes the frame that asks for the frames of a channel.
    pub fn subscribe(&self, identifier: Identifier) -> (r: String)
        ensures
            r@ == (CommandView::Subscribe { identifier: identifier.deep_view() }).wire(),
    {
        self.send(Command::Subscribe { identifier })
    }

    /// Closes the feed.
    pub fn close(&mut self)
        ensures
            !final(self).opened(),
    {
        self.open = false;
    }
}

/// The address at which the feed is opened.
pub open spec fn cable_address() -> Seq<char> {
    "https://splits.io/api/cable"@
}

/// The request that opens the feed: it asks for the connection to be
/// turned into a socket.
pub open spec fn upgrade_request() -> RequestView {
    RequestView {
        method: Method::Get,
        address: address_at(cable_address()),
        headers: seq![
            ("connection"@, "Upgrade"@),
            ("upgrade"@, "websocket"@),
            ("Sec-WebSocket-Version"@, "13"@),
            ("Sec-WebSocket-Key"@, "TotallyRandomBytesHere=="@),
        ],
        body: None,
    }
}

/// Writes the request that opens the feed.
pub fn upgrade() -> (r: Request)
    ensures
        r.deep_view() == upgrade_request(),
{
    let r = Request::new(Method::Get, Address::new("https://splits.io/api/cable")).header(
        "connection",
        "Upgrade",
    ).header("upgrade", "websocket").header("Sec-WebSocket-Version", "13").header(
        "Sec-WebSocket-Key",
        "TotallyRandomBytesHere==",
    );
    assert(r.deep_view().headers =~= upgrade_request().headers);
    r
}

/// Opens the feed on the answer to the request of [`upgrade`]: the feed is
/// there where the service switches protocols, with status 101, and every
/// other status is the error.
pub fn events(status: u16) -> (r: Result<Events, Error>)
    ensures
        match r {
            Ok(feed) => status == 101 && feed.opened(),
            Err(e) => status != 101 && e.deep_view() == (ErrorView::Status { status }),
        },
{
    if status != 101 {
        return Err(Error::Status { status });
    }
    Ok(Events::new())
}

} // verus!
