//! The race feed: frames that arrive on one connection, the events they
//! carry, and the commands that are sent back.
//!
//! A frame is a JSON document of one of three shapes. A control frame
//! speaks of the connection. A targeted frame names a channel and carries a
//! message for it. A frame that names a channel and carries a message of a
//! kind that is not known here is passed over. Everything else is an error
//! of the frame. [`decode_frame`] goes from the text of a frame to what
//! the reader of the feed is handed, and [`Events`] says how a feed is read
//! frame by frame. What holds of all frames and feeds is proved in
//! [`laws`].

pub mod command;
pub mod envelope;
pub mod feed;
pub mod identifier;
pub mod kind;
pub mod laws;
pub mod message;

pub use self::command::Command;
pub use self::envelope::decode_frame;
pub use self::envelope::ControlKind;
pub use self::envelope::Envelope;
pub use self::feed::events;
pub use self::feed::upgrade;
pub use self::feed::Events;
pub use self::feed::Frame;
pub use self::feed::Pull;
pub use self::identifier::Identifier;
pub use self::kind::Event;
pub use self::kind::EventError;
pub use self::kind::EventKind;
pub use self::kind::Tag;
pub use self::message::RawMessage;
