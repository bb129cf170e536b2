//! A client's side of the splits.io API.
//!
//! The heart of the crate is the race feed ([`event`]): one connection on
//! which the service sends frames for many channels, and the rules by which
//! a frame becomes an event, is passed over, or is an error. Around it
//! stand the data that the service sends ([`schema`]) and the requests that
//! a client makes ([`race`], [`run`], [`runner`], [`game`], [`category`]).
//!
//! Nothing here touches the network. A request is a plain value that says
//! what to send, and an answer is read from its status and the text of its
//! body.

pub mod category;
pub mod client;
pub mod decode;
pub mod event;
pub mod game;
pub mod id;
pub mod json;
pub mod race;
pub mod request;
pub mod run;
pub mod runner;
pub mod schema;
pub mod wrapper;

pub use crate::client::Client;
pub use crate::client::Error;
pub use crate::id::Uuid;
pub use crate::schema::Attachment;
pub use crate::schema::Category;
pub use crate::schema::ChatMessage;
pub use crate::schema::Entry;
pub use crate::schema::EntryStatus;
pub use crate::schema::Game;
pub use crate::schema::Race;
pub use crate::schema::Run;
pub use crate::schema::RunItemHistories;
pub use crate::schema::Runner;
pub use crate::schema::Segment;
pub use crate::schema::SegmentItemHistories;
pub use crate::schema::Visibility;
