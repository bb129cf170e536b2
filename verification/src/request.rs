//! Requests as plain values: what is asked of the service, before it is
//! sent.
//!
//! The text of an address is put together by the `url` crate from a base,
//! the segments that follow it and at most one pair of the query.

use vstd::prelude::*;

verus! {

/// The method of a request.
#[derive(Clone, Copy, Debug, PartialEq, Eq, Structural)]
pub enum Method {
    Get,
    Post,
    Patch,
    Delete,
}

/// An address of the service, in its parts.
#[derive(Debug, PartialEq)]
pub struct Address {
    /// The address of a collection, or another whole address.
    pub base: String,
    /// What follows the base, segment by segment.
    pub segments: Vec<String>,
    /// The one pair of the query, if there is one.
    pub query: Option<(String, String)>,
}

/// The mathematical value of an [`Address`].
pub struct AddressView {
    pub base: Seq<char>,
    pub segments: Seq<Seq<char>>,
    pub query: Option<(Seq<char>, Seq<char>)>,
}

impl DeepView for Address {
    type V = AddressView;

    open spec fn deep_view(&self) -> AddressView {
        AddressView {
            base: self.base.deep_view(),
            segments: self.segments.deep_view(),
            query: self.query.deep_view(),
        }
    }
}

/// A request to the service.
#[derive(Debug, PartialEq)]
pub struct Request {
    pub method: Method,
    pub address: Address,
    /// The headers of the request, by name and value.
    pub headers: Vec<(String, String)>,
    /// The body of the request, as the text of a JSON document.
    pub body: Option<String>,
}

/// The mathematical value of a [`Request`].
pub struct RequestView {
    pub method: Method,
    pub address: AddressView,
    pub headers: Seq<(Seq<char>, Seq<char>)>,
    pub body: Option<Seq<char>>,
}

impl DeepView for Request {
    type V = RequestView;

    open spec fn deep_view(&self) -> RequestView {
        RequestView {
            method: self.method,
            address: self.address.deep_view(),
            headers: self.headers.deep_view(),
            body: self.body.deep_view(),
        }
    }
}

/// What the `url` crate makes of an address with segments appended to its
/// path: the text of the address that comes of `Url::parse` and
/// `PathSegmentsMut::extend`, or nothing where the address does not parse
/// or cannot be a base.
pub uninterp spec fn url_extended(base: Seq<char>, segments: Seq<Seq<char>>) -> Option<Seq<char>>;

/// What the `url` crate makes of an address with one more pair in its
/// query: the text of the address that comes of `Url::parse` and
/// `Serializer::append_pair`, or nothing where the address does not parse.
pub uninterp spec fn url_with_pair(address: Seq<char>, name: Seq<char>, value: Seq<char>) -> Option<
    Seq<char>,
>;

/// The longest text, in bytes, that goes into an address.
pub const PART_LIMIT: usize = 0xff_ffff;

/// The largest number of segments that go into an address.
pub const SEGMENT_LIMIT: usize = 16;

/// The longest address, in bytes, that takes a pair into its query.
pub const ADDRESS_LIMIT: usize = 0x3fff_ffff;

/// Whether a text is short enough to go into an address.
pub open spec fn part_fits(text: Seq<char>) -> bool {
    vstd::utf8::encode_utf8(text).len() <= PART_LIMIT
}

/// Whether an address is short enough to take a pair into its query.
pub open spec fn address_fits(address: Seq<char>) -> bool {
    vstd::utf8::encode_utf8(address).len() <= ADDRESS_LIMIT
}

/// `Url::parse`, then `Url::path_segments_mut` and `PathSegmentsMut::extend`
/// with the segments, then the text of the address by `From<Url>`. The
/// contract names the outcome after the address and the segments. The
/// limits keep the text of the address within what the crate can index.
#[verifier::external_body]
fn extend_path(base: &str, segments: &Vec<String>) -> (r: Option<String>)
    requires
        part_fits(base@),
        segments@.len() <= SEGMENT_LIMIT,
        forall|i: int| 0 <= i < segments@.len() ==> part_fits(#[trigger] segments@[i]@),
    ensures
        r.deep_view() == url_extended(base@, segments.deep_view()),
{
    let mut url = url::Url::parse(base).ok()?;
    url.path_segments_mut().ok()?.extend(segments);
    Some(url.into())
}

/// `Url::parse`, then `Url::query_pairs_mut` and `Serializer::append_pair`
/// with the pair, then the text of the address by `From<Url>`. The contract
/// names the outcome after the address and the pair. The limits keep the
/// text of the address within what the crate can index.
#[verifier::external_body]
fn append_pair(address: &str, name: &str, value: &str) -> (r: Option<String>)
    requires
        address_fits(address@),
        part_fits(name@),
        part_fits(value@),
    ensures
        r.deep_view() == url_with_pair(address@, name@, value@),
{
    let mut url = url::Url::parse(address).ok()?;
    url.query_pairs_mut().append_pair(name, value);
    Some(url.into())
}

impl AddressView {
    /// Whether the parts of the address are within the limits.
    pub open spec fn fits(self) -> bool {
        &&& part_fits(self.base)
        &&& self.segments.len() <= SEGMENT_LIMIT
        &&& forall|i: int| 0 <= i < self.segments.len() ==> part_fits(#[trigger] self.segments[i])
        &&& self.query matches Some(pair) ==> part_fits(pair.0) && part_fits(pair.1)
    }

    /// The text of the address: what the `url` crate makes of the
    /// address of the collection, the segments and the pair of the query.
    /// There is none where a part is over its limit or the crate refuses.
    pub open spec fn url(self) -> Option<Seq<char>> {
        if !self.fits() {
            None
        } else {
            match url_extended(self.base, self.segments) {
                Some(address) => match self.query {
                    Some(pair) => if address_fits(address) {
                        url_with_pair(address, pair.0, pair.1)
                    } else {
                        None
                    },
                    None => Some(address),
                },
                None => None,
            }
        }
    }
}

/// The length of a text in bytes.
fn byte_len(text: &str) -> (n: usize)
    ensures
        n == vstd::utf8::encode_utf8(text@).len(),
{
    text.as_bytes().len()
}

/// Whether every segment is within its limit.
fn segments_fit(segments: &Vec<String>) -> (r: bool)
    ensures
        r == forall|i: int| 0 <= i < segments@.len() ==> part_fits(#[trigger] segments@[i]@),
{
    let mut i: usize = 0;
    while i < segments.len()
        invariant
            i <= segments.len(),
            forall|k: int| 0 <= k < i ==> part_fits(#[trigger] segments@[k]@),
        decreases segments.len() - i,
    {
        if byte_len(segments[i].as_str()) > PART_LIMIT {
            return false;
        }
        i += 1;
    }
    true
}

impl AddressView {
    /// The address with one more segment at its end.
    pub open spec fn segment(self, segment: Seq<char>) -> AddressView {
        AddressView { segments: self.segments.push(segment), ..self }
    }

    /// The address with this pair as its query.
    pub open spec fn pair(self, name: Seq<char>, value: Seq<char>) -> AddressView {
        AddressView { query: Some((name, value)), ..self }
    }
}

/// The address that is a base and nothing more.
pub open spec fn address_at(base: Seq<char>) -> AddressView {
    AddressView { base, segments: Seq::empty(), query: None }
}

/// The request that goes to an address by a method, without headers or a
/// body.
pub open spec fn request_to(method: Method, address: AddressView) -> RequestView {
    RequestView { method, address, headers: Seq::empty(), body: None }
}

impl Address {
    /// The address that is a base and nothing more.
    pub fn new(base: &str) -> (r: Address)
        ensures
            r.deep_view() == address_at(base@),
    {
        let r = Address { base: base.to_owned(), segments: Vec::new(), query: None };
        assert(r.segments.deep_view() =~= Seq::empty());
        r
    }

    /// The same address with one more segment at its end.
    pub fn segment(self, segment: &str) -> (r: Address)
        ensures
            r.deep_view() == self.deep_view().segment(segment@),
    {
        let mut r = self;
        r.segments.push(segment.to_owned());
        assert(r.segments.deep_view() =~= self.segments.deep_view().push(segment@));
        r
    }

    /// The same address with this pair as its query.
    pub fn pair(self, name: &str, value: &str) -> (r: Address)
        ensures
            r.deep_view() == self.deep_view().pair(name@, value@),
    {
        let mut r = self;
        r.query = Some((name.to_owned(), value.to_owned()));
        r
    }

    /// Puts the text of the address together.
    pub fn url(&self) -> (r: Option<String>)
        ensures
            r.deep_view() == self.deep_view().url(),
    {
        if byte_len(self.base.as_str()) > PART_LIMIT || self.segments.len() > SEGMENT_LIMIT
            || !segments_fit(&self.segments) {
            assert(!self.deep_view().fits()) by {
                if self.segments@.len() <= SEGMENT_LIMIT && part_fits(self.base@) {
                    let i = choose|i: int|
                        0 <= i < self.segments@.len() && !part_fits(#[trigger] self.segments@[i]@);
                    assert(self.deep_view().segments[i] == self.segments@[i]@);
                }
            }
            return None;
        }
        match &self.query {
            Some(pair) => {
                if byte_len(pair.0.as_str()) > PART_LIMIT || byte_len(pair.1.as_str())
                    > PART_LIMIT {
                    return None;
                }
            },
            None => {},
        }
        assert(self.deep_view().fits()) by {
            assert forall|i: int| 0 <= i < self.deep_view().segments.len() implies part_fits(
                #[trigger] self.deep_view().segments[i],
            ) by {
                assert(self.deep_view().segments[i] == self.segments@[i]@);
            }
        }
        let address = extend_path(self.base.as_str(), &self.segments)?;
        match &self.query {
            Some(pair) => {
                if byte_len(address.as_str()) > ADDRESS_LIMIT {
                    None
                } else {
                    append_pair(address.as_str(), pair.0.as_str(), pair.1.as_str())
                }
            },
            None => Some(address),
        }
    }
}

impl Request {
    /// The request that goes to an address by a method, without headers or
    /// a body.
    pub fn new(method: Method, address: Address) -> (r: Request)
        ensures
            r.deep_view() == request_to(method, address.deep_view()),
    {
        let r = Request { method, address, headers: Vec::new(), body: None };
        assert(r.headers.deep_view() =~= Seq::empty());
        r
    }

    /// The same request with one more header.
    pub fn header(self, name: &str, value: &str) -> (r: Request)
        ensures
            r.deep_view() == (RequestView {
                headers: self.deep_view().headers.push((name@, value@)),
                ..self.deep_view()
            }),
    {
        let mut r = self;
        r.headers.push((name.to_owned(), value.to_owned()));
        assert(r.headers.deep_view() =~= self.headers.deep_view().push((name@, value@)));
        r
    }

    /// The same request with this text as its body.
    pub fn json(self, body: String) -> (r: Request)
        ensures
            r.deep_view() == (RequestView { body: Some(body@), ..self.deep_view() }),
    {
        let mut r = self;
        r.body = Some(body);
        r
    }
}

} // verus!
