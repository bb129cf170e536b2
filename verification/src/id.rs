//! Universally unique identifiers as plain 128-bit values.
//!
//! Text is parsed and written by the `uuid` crate.

use vstd::prelude::*;
use crate::json::hex_digits;

verus! {

/// A 128-bit universally unique identifier.
#[derive(Clone, Copy, Debug, PartialEq, Eq, Hash, Structural)]
pub struct Uuid(pub u128);

impl DeepView for Uuid {
    type V = Uuid;

    open spec fn deep_view(&self) -> Uuid {
        *self
    }
}

/// What `uuid::Uuid::parse_str` makes of a text: the identifier's value, or
/// nothing where it refuses the text.
pub uninterp spec fn uuid_parse(text: Seq<char>) -> Option<u128>;

/// Sixteen to the power of `n`.
pub open spec fn pow16(n: int) -> int
    decreases n,
{
    if n <= 0 {
        1
    } else {
        16 * pow16(n - 1)
    }
}

/// The `k`-th of the 32 hexadecimal digits of `value`, the most significant
/// one first.
pub open spec fn nibble(value: u128, k: int) -> int {
    (value as int / pow16(31 - k)) % 16
}

/// How many hyphens stand before position `i` of the hyphenated form.
pub open spec fn hyphens_before(i: int) -> int {
    if i < 8 {
        0
    } else if i < 13 {
        1
    } else if i < 18 {
        2
    } else if i < 23 {
        3
    } else {
        4
    }
}

/// The hyphenated lower-case form of an identifier: 32 hexadecimal digits
/// in groups of 8, 4, 4, 4 and 12.
pub open spec fn hyphenated(value: u128) -> Seq<char> {
    Seq::new(
        36,
        |i: int|
            if i == 8 || i == 13 || i == 18 || i == 23 {
                '-'
            } else {
                hex_digits()[nibble(value, i - hyphens_before(i))]
            },
    )
}

/// `uuid::Uuid::parse_str`, with the identifier taken as its 128-bit value
/// by `Uuid::as_u128`. The contract names the outcome after the text alone.
#[verifier::external_body]
fn parse_str(text: &str) -> (r: Option<u128>)
    ensures
        r == uuid_parse(text@),
{
    uuid::Uuid::parse_str(text).ok().map(|id| id.as_u128())
}

/// `uuid::Uuid::hyphenated`, written out by `to_string`, of the identifier
/// that `Uuid::from_u128` makes of the value. The contract states the form,
/// and that `parse_str` reads it back as the same value, which the crate
/// documents of every form that it writes.
#[verifier::external_body]
fn to_hyphenated(value: u128) -> (r: String)
    ensures
        r@ == hyphenated(value),
        uuid_parse(r@) == Some(value),
{
    uuid::Uuid::from_u128(value).hyphenated().to_string()
}

impl Uuid {
    /// Reads an identifier from any of the forms that the `uuid` crate
    /// accepts.
    pub fn parse(text: &str) -> (r: Option<Uuid>)
        ensures
            r == match uuid_parse(text@) {
                Some(value) => Some(Uuid(value)),
                None => None,
            },
    {
        match parse_str(text) {
            Some(value) => Some(Uuid(value)),
            None => None,
        }
    }

    /// Writes the identifier in its hyphenated lower-case form.
    pub fn hyphenated(&self) -> (r: String)
        ensures
            r@ == hyphenated(self.0),
            uuid_parse(r@) == Some(self.0),
    {
        to_hyphenated(self.0)
    }
}

} // verus!
