//! Reading typed values out of JSON documents.
//!
//! [`Decode`] says, for each type, which documents describe a value of it
//! and which value that is. Members of objects are read with [`required`]
//! and [`optional`].

use vstd::prelude::*;
use crate::id::uuid_parse;
use crate::id::Uuid;
use crate::json::Json;
use crate::json::JsonView;
use crate::json::Number;

verus! {

/// A type whose values can be read from a JSON document.
pub trait Decode: DeepView + Sized {
    /// The value that a document describes, or `None` where it describes
    /// none of this type.
    spec fn decoded(doc: JsonView) -> Option<<Self as DeepView>::V>;

    /// Reads a value from a document.
    fn from_json(doc: &Json) -> (r: Option<Self>)
        ensures
            r.deep_view() == Self::decoded(doc.deep_view()),
    ;
}

/// Why a text could not be read as what it was taken for.
#[derive(Debug, PartialEq)]
pub enum ParseError {
    /// The text is not a JSON document. The message is the parser's.
    Syntax { message: String },
    /// The document has none of the shapes of a frame of the race feed.
    Envelope,
    /// The document names no channel that is known.
    Channel,
    /// The document does not carry what it was asked for.
    Payload,
}

/// The mathematical value of a [`ParseError`].
pub enum ParseErrorView {
    Syntax { message: Seq<char> },
    Envelope,
    Channel,
    Payload,
}

impl DeepView for ParseError {
    type V = ParseErrorView;

    open spec fn deep_view(&self) -> ParseErrorView {
        match self {
            ParseError::Syntax { message } => ParseErrorView::Syntax { message: message@ },
            ParseError::Envelope => ParseErrorView::Envelope,
            ParseError::Channel => ParseErrorView::Channel,
            ParseError::Payload => ParseErrorView::Payload,
        }
    }
}

/// The mathematical value of an outcome: that of the value, or that of the
/// error.
pub open spec fn result_view<T: DeepView, E: DeepView>(r: Result<T, E>) -> Result<T::V, E::V> {
    match r {
        Ok(value) => Ok(value.deep_view()),
        Err(error) => Err(error.deep_view()),
    }
}

/// The member called `name`, decoded: `None` where the member is missing or
/// does not describe a `T`.
pub open spec fn required_member<T: Decode>(doc: JsonView, name: Seq<char>) -> Option<T::V> {
    match doc.field(name) {
        Some(below) => T::decoded(below),
        None => None,
    }
}

/// The member called `name`, which may be missing or `null`: `None` where
/// it holds something else that does not describe a `T`.
pub open spec fn optional_member<T: Decode>(doc: JsonView, name: Seq<char>) -> Option<
    Option<T::V>,
> {
    match doc.present(name) {
        None => Some(None),
        Some(below) => match T::decoded(below) {
            Some(value) => Some(Some(value)),
            None => None,
        },
    }
}

/// Reads a member that must be there.
pub fn required<T: Decode>(doc: &Json, name: &str) -> (r: Option<T>)
    ensures
        r.deep_view() == required_member::<T>(doc.deep_view(), name@),
{
    match doc.field(name) {
        Some(below) => T::from_json(below),
        None => None,
    }
}

/// Reads a member that may be missing or `null`.
pub fn optional<T: Decode>(doc: &Json, name: &str) -> (r: Option<Option<T>>)
    ensures
        r.deep_view() == optional_member::<T>(doc.deep_view(), name@),
{
    match doc.present(name) {
        None => Some(None),
        Some(below) => match T::from_json(below) {
            Some(value) => Some(Some(value)),
            None => None,
        },
    }
}

impl Decode for String {
    open spec fn decoded(doc: JsonView) -> Option<Seq<char>> {
        doc.text()
    }

    fn from_json(doc: &Json) -> (r: Option<String>) {
        match doc {
            Json::Text(text) => Some(text.clone()),
            _ => None,
        }
    }
}

impl Decode for bool {
    open spec fn decoded(doc: JsonView) -> Option<bool> {
        match doc {
            JsonView::Bool(b) => Some(b),
            _ => None,
        }
    }

    fn from_json(doc: &Json) -> (r: Option<bool>) {
        match doc {
            Json::Bool(b) => Some(*b),
            _ => None,
        }
    }
}

impl DeepView for Number {
    type V = Number;

    open spec fn deep_view(&self) -> Number {
        *self
    }
}

impl Decode for Number {
    open spec fn decoded(doc: JsonView) -> Option<Number> {
        match doc {
            JsonView::Number(n) => Some(n),
            _ => None,
        }
    }

    fn from_json(doc: &Json) -> (r: Option<Number>) {
        match doc {
            Json::Number(n) => Some(*n),
            _ => None,
        }
    }
}

impl Decode for u32 {
    open spec fn decoded(doc: JsonView) -> Option<u32> {
        match doc {
            JsonView::Number(Number::PosInt(n)) if n <= u32::MAX => Some(n as u32),
            _ => None,
        }
    }

    fn from_json(doc: &Json) -> (r: Option<u32>) {
        match doc {
            Json::Number(Number::PosInt(n)) => {
                if *n <= 0xffff_ffff {
                    Some(*n as u32)
                } else {
                    None
                }
            },
            _ => None,
        }
    }
}

impl Decode for Uuid {
    open spec fn decoded(doc: JsonView) -> Option<Uuid> {
        match doc {
            JsonView::Text(text) => match uuid_parse(text) {
                Some(value) => Some(Uuid(value)),
                None => None,
            },
            _ => None,
        }
    }

    fn from_json(doc: &Json) -> (r: Option<Uuid>) {
        match doc {
            Json::Text(text) => Uuid::parse(text.as_str()),
            _ => None,
        }
    }
}

/// The values that the items of an array describe, where each describes
/// one.
pub open spec fn decoded_items<T: Decode>(items: Seq<JsonView>) -> Option<Seq<T::V>> {
    if forall|i: int| 0 <= i < items.len() ==> (#[trigger] T::decoded(items[i])) is Some {
        Some(Seq::new(items.len(), |i: int| T::decoded(items[i])->0))
    } else {
        None
    }
}

impl<T: Decode> Decode for Vec<T> {
    open spec fn decoded(doc: JsonView) -> Option<Seq<T::V>> {
        match doc {
            JsonView::Array(items) => decoded_items::<T>(items),
            _ => None,
        }
    }

    fn from_json(doc: &Json) -> (r: Option<Vec<T>>) {
        match doc {
            Json::Array(items) => {
                let ghost docs = doc.deep_view()->Array_0;
                let mut out: Vec<T> = Vec::new();
                let mut i: usize = 0;
                while i < items.len()
                    invariant
                        i <= items.len(),
                        doc.deep_view() == JsonView::Array(docs),
                        docs.len() == items@.len(),
                        forall|k: int|
                            0 <= k < items@.len() ==> #[trigger] docs[k] == items@[k].deep_view(),
                        out@.len() == i,
                        forall|k: int|
                            0 <= k < i ==> T::decoded(docs[k]) == Some(
                                (#[trigger] out@[k]).deep_view(),
                            ),
                    decreases items.len() - i,
                {
                    match T::from_json(&items[i]) {
                        Some(value) => {
                            out.push(value);
                        },
                        None => {
                            assert(T::decoded(docs[i as int]) is None);
                            return None;
                        },
                    }
                    i += 1;
                }
                assert forall|k: int| 0 <= k < docs.len() implies (#[trigger] T::decoded(
                    docs[k],
                )) is Some by {
                    assert(T::decoded(docs[k]) == Some(out@[k].deep_view()));
                }
                assert(out.deep_view() =~= decoded_items::<T>(docs)->0);
                Some(out)
            },
            _ => None,
        }
    }
}

} // verus!
