//! JSON documents as trees of plain values.
//!
//! Text is read by `serde_json`; everything that looks inside a document is
//! written here, over [`Json`] and its mathematical value [`JsonView`].

use vstd::prelude::*;

verus! {

/// A JSON number: an unsigned integer, a negative integer, or a double kept
/// as its IEEE 754 bit pattern.
#[derive(Clone, Copy, Debug, PartialEq, Eq, Structural)]
pub enum Number {
    PosInt(u64),
    NegInt(i64),
    Float(u64),
}

/// A JSON document.
///
/// The members of an object are kept in a list; reading a member by name
/// takes the first one of that name.
#[derive(Debug, PartialEq)]
pub enum Json {
    Null,
    Bool(bool),
    Number(Number),
    Text(String),
    Array(Vec<Json>),
    Object(Vec<(String, Json)>),
}

/// The mathematical value of a [`Json`] document.
pub enum JsonView {
    Null,
    Bool(bool),
    Number(Number),
    Text(Seq<char>),
    Array(Seq<JsonView>),
    Object(Seq<(Seq<char>, JsonView)>),
}

/// The mathematical value of a document.
pub open spec fn tree_of(doc: Json) -> JsonView
    decreases doc,
{
    match doc {
        Json::Null => JsonView::Null,
        Json::Bool(b) => JsonView::Bool(b),
        Json::Number(n) => JsonView::Number(n),
        Json::Text(s) => JsonView::Text(s@),
        Json::Array(items) => JsonView::Array(
            Seq::new(
                items@.len(),
                |i: int|
                    if 0 <= i < items@.len() {
                        tree_of(items@[i])
                    } else {
                        JsonView::Null
                    },
            ),
        ),
        Json::Object(members) => JsonView::Object(
            Seq::new(
                members@.len(),
                |i: int|
                    if 0 <= i < members@.len() {
                        (members@[i].0@, tree_of(members@[i].1))
                    } else {
                        (Seq::empty(), JsonView::Null)
                    },
            ),
        ),
    }
}

impl DeepView for Json {
    type V = JsonView;

    open spec fn deep_view(&self) -> JsonView {
        tree_of(*self)
    }
}

/// The value of the first member called `name` at or after position `start`.
pub open spec fn member_from(
    members: Seq<(Seq<char>, JsonView)>,
    name: Seq<char>,
    start: int,
) -> Option<JsonView>
    decreases members.len() - start,
{
    if start < 0 || start >= members.len() {
        None
    } else if members[start].0 == name {
        Some(members[start].1)
    } else {
        member_from(members, name, start + 1)
    }
}

impl JsonView {
    /// The first member called `name`, where this is an object that has one.
    pub open spec fn field(self, name: Seq<char>) -> Option<JsonView> {
        match self {
            JsonView::Object(members) => member_from(members, name, 0),
            _ => None,
        }
    }

    /// The member called `name`, unless it is missing or `null`.
    pub open spec fn present(self, name: Seq<char>) -> Option<JsonView> {
        match self.field(name) {
            Some(JsonView::Null) => None,
            other => other,
        }
    }

    /// The characters of a string.
    pub open spec fn text(self) -> Option<Seq<char>> {
        match self {
            JsonView::Text(s) => Some(s),
            _ => None,
        }
    }
}

/// `str`'s `==`: whether two strings hold the same characters.
#[verifier::external_body]
pub(crate) fn same_text(a: &str, b: &str) -> (r: bool)
    ensures
        r == (a@ == b@),
{
    a == b
}

/// `String::push`: one more character at the end.
#[verifier::external_body]
pub(crate) fn push_char(text: &mut String, c: char)
    ensures
        final(text)@ == old(text)@.push(c),
{
    text.push(c)
}

/// The sixteen lower-case hexadecimal digits.
pub open spec fn hex_digits() -> Seq<char> {
    seq!['0', '1', '2', '3', '4', '5', '6', '7', '8', '9', 'a', 'b', 'c', 'd', 'e', 'f']
}

/// How one character stands inside a JSON string: the quotation mark, the
/// backslash and the control characters are escaped, every other character
/// stands for itself.
pub open spec fn escaped(c: char) -> Seq<char> {
    if c == '"' {
        seq!['\\', '"']
    } else if c == '\\' {
        seq!['\\', '\\']
    } else if c == '\u{8}' {
        seq!['\\', 'b']
    } else if c == '\u{c}' {
        seq!['\\', 'f']
    } else if c == '\n' {
        seq!['\\', 'n']
    } else if c == '\r' {
        seq!['\\', 'r']
    } else if c == '\t' {
        seq!['\\', 't']
    } else if (c as u32) < 0x20 {
        seq!['\\', 'u', '0', '0', hex_digits()[c as int / 16], hex_digits()[c as int % 16]]
    } else {
        seq![c]
    }
}

/// The characters of a text, each as it stands inside a JSON string.
pub open spec fn escaped_text(text: Seq<char>) -> Seq<char>
    decreases text.len(),
{
    if text.len() == 0 {
        Seq::empty()
    } else {
        escaped_text(text.drop_last()) + escaped(text.last())
    }
}

/// A text as a JSON string: escaped, between quotation marks.
pub open spec fn quoted(text: Seq<char>) -> Seq<char> {
    seq!['"'] + escaped_text(text) + seq!['"']
}

/// The hexadecimal digit of a number below sixteen.
fn hex_digit(n: u32) -> (r: char)
    requires
        n < 16,
    ensures
        r == hex_digits()[n as int],
{
    if n == 0 {
        '0'
    } else if n == 1 {
        '1'
    } else if n == 2 {
        '2'
    } else if n == 3 {
        '3'
    } else if n == 4 {
        '4'
    } else if n == 5 {
        '5'
    } else if n == 6 {
        '6'
    } else if n == 7 {
        '7'
    } else if n == 8 {
        '8'
    } else if n == 9 {
        '9'
    } else if n == 10 {
        'a'
    } else if n == 11 {
        'b'
    } else if n == 12 {
        'c'
    } else if n == 13 {
        'd'
    } else if n == 14 {
        'e'
    } else {
        'f'
    }
}

/// Appends one character as it stands inside a JSON string.
fn push_escaped(out: &mut String, c: char)
    ensures
        final(out)@ == old(out)@ + escaped(c),
{
    if c == '"' {
        out.append("\\\"");
        proof {
            reveal_strlit("\\\"");
        }
    } else if c == '\\' {
        out.append("\\\\");
        proof {
            reveal_strlit("\\\\");
        }
    } else if c == '\u{8}' {
        out.append("\\b");
        proof {
            reveal_strlit("\\b");
        }
    } else if c == '\u{c}' {
        out.append("\\f");
        proof {
            reveal_strlit("\\f");
        }
    } else if c == '\n' {
        out.append("\\n");
        proof {
            reveal_strlit("\\n");
        }
    } else if c == '\r' {
        out.append("\\r");
        proof {
            reveal_strlit("\\r");
        }
    } else if c == '\t' {
        out.append("\\t");
        proof {
            reveal_strlit("\\t");
        }
    } else if (c as u32) < 0x20 {
        let code: u32 = c as u32;
        out.append("\\u00");
        proof {
            reveal_strlit("\\u00");
        }
        push_char(out, hex_digit(code / 16));
        push_char(out, hex_digit(code % 16));
    } else {
        push_char(out, c);
    }
    assert(out@ =~= old(out)@ + escaped(c));
}

/// Writes a text as a JSON string.
pub fn quote(text: &str) -> (r: String)
    ensures
        r@ == quoted(text@),
{
    let mut out = String::new();
    push_char(&mut out, '"');
    for c in it: text.chars()
        invariant
            it.seq() == text@,
            out@ == seq!['"'] + escaped_text(text@.take(it.index() as int)),
    {
        proof {
            let done = text@.take(it.index() as int);
            let next = text@.take(it.index() as int + 1);
            assert(next.drop_last() =~= done);
            assert(next.last() == c);
        }
        push_escaped(&mut out, c);
    }
    assert(text@.take(text@.len() as int) =~= text@);
    push_char(&mut out, '"');
    out
}

/// One member of an object as text: its name as a string, a colon, and the
/// text of its value.
pub open spec fn member_text(member: (Seq<char>, Seq<char>)) -> Seq<char> {
    quoted(member.0) + seq![':'] + member.1
}

/// The members of an object as text, with commas between them.
pub open spec fn members_text(members: Seq<(Seq<char>, Seq<char>)>) -> Seq<char>
    decreases members.len(),
{
    if members.len() == 0 {
        Seq::empty()
    } else if members.len() == 1 {
        member_text(members[0])
    } else {
        members_text(members.drop_last()) + seq![','] + member_text(members.last())
    }
}

/// An object as text, from the names of its members and the texts of their
/// values.
pub open spec fn object_text(members: Seq<(Seq<char>, Seq<char>)>) -> Seq<char> {
    seq!['{'] + members_text(members) + seq!['}']
}

/// Writes an object, given the names of its members and the texts of their
/// values.
pub fn write_object(members: &Vec<(String, String)>) -> (r: String)
    ensures
        r@ == object_text(members.deep_view()),
{
    let ghost all = members.deep_view();
    let mut out = String::new();
    push_char(&mut out, '{');
    let mut i: usize = 0;
    while i < members.len()
        invariant
            i <= members.len(),
            all == members.deep_view(),
            out@ == seq!['{'] + members_text(all.take(i as int)),
        decreases members.len() - i,
    {
        let ghost before = all.take(i as int);
        let ghost after = all.take(i as int + 1);
        assert(after.drop_last() =~= before);
        assert(after.last() == (members@[i as int].0@, members@[i as int].1@));
        if i > 0 {
            push_char(&mut out, ',');
        }
        let name = quote(members[i].0.as_str());
        out.append(name.as_str());
        push_char(&mut out, ':');
        out.append(members[i].1.as_str());
        assert(out@ =~= seq!['{'] + members_text(after));
        i += 1;
    }
    assert(all.take(all.len() as int) =~= all);
    push_char(&mut out, '}');
    out
}

impl Json {
    /// Reads a member of an object by name.
    pub fn field<'a>(&'a self, name: &str) -> (r: Option<&'a Json>)
        ensures
            r.deep_view() == self.deep_view().field(name@),
    {
        match self {
            Json::Object(members) => {
                let ghost all = self.deep_view()->Object_0;
                let mut i: usize = 0;
                while i < members.len()
                    invariant
                        i <= members.len(),
                        self.deep_view() == JsonView::Object(all),
                        all.len() == members@.len(),
                        forall|k: int|
                            0 <= k < members@.len() ==> #[trigger] all[k] == (
                                members@[k].0@,
                                members@[k].1.deep_view(),
                            ),
                        member_from(all, name@, 0) == member_from(all, name@, i as int),
                    decreases members.len() - i,
                {
                    let member = &members[i];
                    assert(all[i as int] == (member.0@, member.1.deep_view()));
                    if same_text(member.0.as_str(), name) {
                        return Some(&member.1);
                    }
                    i += 1;
                }
                None
            },
            _ => None,
        }
    }

    /// Reads a member by name, taking a missing one and `null` alike.
    pub fn present<'a>(&'a self, name: &str) -> (r: Option<&'a Json>)
        ensures
            r.deep_view() == self.deep_view().present(name@),
    {
        match self.field(name) {
            Some(Json::Null) => None,
            other => other,
        }
    }

    /// Parses a text as one JSON document.
    ///
    /// The result is what `serde_json` makes of the text: the document, or
    /// the message of its error.
    pub fn parse(text: &str) -> (r: Result<Json, String>)
        ensures
            match r {
                Ok(doc) => json_parse(text@) == Ok::<JsonView, Seq<char>>(doc.deep_view()),
                Err(message) => json_parse(text@) == Err::<JsonView, Seq<char>>(message@),
            },
    {
        match from_str(text) {
            Ok(value) => Ok(lift(value)),
            Err(message) => Err(message),
        }
    }
}

#[verifier::external_type_specification]
#[verifier::external_body]
pub struct ExValue(serde_json::Value);

/// The document that a `serde_json::Value` holds.
pub uninterp spec fn value_tree(value: serde_json::Value) -> JsonView;

/// What `serde_json::from_str` makes of a text: the document, or the message
/// of the error.
pub uninterp spec fn json_parse(text: Seq<char>) -> Result<JsonView, Seq<char>>;

/// One level of a `serde_json::Value`: its variant, with the values below it
/// left as they are.
enum Node {
    Null,
    Bool(bool),
    Number(Number),
    Text(String),
    Array(Vec<serde_json::Value>),
    Object(Vec<(String, serde_json::Value)>),
}

/// The document that a [`Node`] holds.
spec fn node_tree(node: Node) -> JsonView {
    match node {
        Node::Null => JsonView::Null,
        Node::Bool(b) => JsonView::Bool(b),
        Node::Number(n) => JsonView::Number(n),
        Node::Text(s) => JsonView::Text(s@),
        Node::Array(items) => JsonView::Array(
            items@.map_values(|v: serde_json::Value| value_tree(v)),
        ),
        Node::Object(members) => JsonView::Object(
            members@.map_values(|m: (String, serde_json::Value)| (m.0@, value_tree(m.1))),
        ),
    }
}

/// `serde_json::from_str` at the type `serde_json::Value`. The contract
/// names the outcome after the text alone: the document that the value
/// holds, or the error's message as `Display` gives it.
#[verifier::external_body]
fn from_str(text: &str) -> (r: Result<serde_json::Value, String>)
    ensures
        match r {
            Ok(value) => json_parse(text@) == Ok::<JsonView, Seq<char>>(value_tree(value)),
            Err(message) => json_parse(text@) == Err::<JsonView, Seq<char>>(message@),
        },
{
    serde_json::from_str::<serde_json::Value>(text).map_err(|e| e.to_string())
}

/// Takes a `serde_json::Value` apart by its variants, one level deep. A
/// number is told apart by `Number::as_u64`, `as_i64` and `as_f64`; the
/// members of an object come in the order in which its map walks them. The
/// contract says that the node holds the document that the value held.
#[verifier::external_body]
fn unpack(value: serde_json::Value) -> (node: Node)
    ensures
        node_tree(node) == value_tree(value),
{
    match value {
        serde_json::Value::Null => Node::Null,
        serde_json::Value::Bool(b) => Node::Bool(b),
        serde_json::Value::Number(n) => Node::Number(match (n.as_u64(), n.as_i64()) {
            (Some(u), _) => Number::PosInt(u),
            (None, Some(i)) => Number::NegInt(i),
            (None, None) => Number::Float(n.as_f64().map_or(0, |x| x.to_bits())),
        }),
        serde_json::Value::String(s) => Node::Text(s),
        serde_json::Value::Array(items) => Node::Array(items),
        serde_json::Value::Object(members) => Node::Object(members.into_iter().collect()),
    }
}

/// Copies a parsed value into a [`Json`] document.
fn lift(value: serde_json::Value) -> (r: Json)
    ensures
        r.deep_view() == value_tree(value),
    decreases value_tree(value),
{
    broadcast use vstd::seq::axiom_seq_index_decreases;

    match unpack(value) {
        Node::Null => Json::Null,
        Node::Bool(b) => Json::Bool(b),
        Node::Number(n) => Json::Number(n),
        Node::Text(s) => Json::Text(s),
        Node::Array(items) => {
            let ghost src = items@;
            let ghost trees = src.map_values(|v: serde_json::Value| value_tree(v));
            let mut out: Vec<Json> = Vec::new();
            for item in it: items
                invariant
                    it.seq() == src,
                    trees == src.map_values(|v: serde_json::Value| value_tree(v)),
                    value_tree(value) == JsonView::Array(trees),
                    out@.len() == it.index(),
                    forall|k: int|
                        0 <= k < out@.len() ==> (#[trigger] out@[k]).deep_view() == trees[k],
            {
                assert(value_tree(item) == trees[it.index() as int]);
                assert(decreases_to!(value_tree(value) => value_tree(value)->Array_0));
                assert(decreases_to!(trees => trees[it.index() as int]));
                let doc = lift(item);
                out.push(doc);
            }
            let r = Json::Array(out);
            assert(r.deep_view()->Array_0 =~= trees);
            r
        },
        Node::Object(members) => {
            let ghost src = members@;
            let ghost trees = src.map_values(
                |m: (String, serde_json::Value)| (m.0@, value_tree(m.1)),
            );
            let mut out: Vec<(String, Json)> = Vec::new();
            for member in it: members
                invariant
                    it.seq() == src,
                    trees == src.map_values(
                        |m: (String, serde_json::Value)| (m.0@, value_tree(m.1)),
                    ),
                    value_tree(value) == JsonView::Object(trees),
                    out@.len() == it.index(),
                    forall|k: int|
                        0 <= k < out@.len() ==> ((#[trigger] out@[k]).0@, out@[k].1.deep_view())
                            == trees[k],
            {
                assert((member.0@, value_tree(member.1)) == trees[it.index() as int]);
                assert(decreases_to!(value_tree(value) => value_tree(value)->Object_0));
                assert(decreases_to!(trees => trees[it.index() as int]));
                assert(decreases_to!(trees[it.index() as int] => trees[it.index() as int].1));
                let (name, below) = member;
                let doc = lift(below);
                out.push((name, doc));
            }
            let r = Json::Object(out);
            assert(r.deep_view()->Object_0 =~= trees);
            r
        },
    }
}

} // verus!
