//! What stands between a request and its answer: the access token that
//! goes with a request, and the errors that an answer can turn out to be.

use vstd::prelude::*;
use crate::decode::required;
use crate::decode::required_member;
use crate::decode::result_view;
use crate::decode::Decode;
use crate::decode::ParseError;
use crate::decode::ParseErrorView;
use crate::json::json_parse;
use crate::json::Json;
use crate::json::JsonView;
use crate::json::push_char;
use crate::request::Request;
use crate::request::RequestView;

verus! {

/// Why an answer could not be had, or could not be read.
#[derive(Debug, PartialEq)]
pub enum DownloadError {
    /// The connection failed; the text says how.
    Transport { reason: String },
    /// The answer arrived and could not be read.
    Parse { source: ParseError },
}

/// The mathematical value of a [`DownloadError`].
pub enum DownloadErrorView {
    Transport { reason: Seq<char> },
    Parse { source: ParseErrorView },
}

impl DeepView for DownloadError {
    type V = DownloadErrorView;

    open spec fn deep_view(&self) -> DownloadErrorView {
        match self {
            DownloadError::Transport { reason } => DownloadErrorView::Transport {
                reason: reason@,
            },
            DownloadError::Parse { source } => DownloadErrorView::Parse {
                source: source.deep_view(),
            },
        }
    }
}

/// An error when making an API request.
#[derive(Debug, PartialEq)]
pub enum Error {
    /// An HTTP error outside of the API.
    Status {
        /// The HTTP status code of the error.
        status: u16,
    },
    /// An error thrown by the API.
    Api {
        /// The HTTP status code of the error.
        status: u16,
        /// The error message.
        message: String,
    },
    /// Failed downloading the response.
    Download {
        /// The reason why downloading the response failed.
        source: DownloadError,
    },
    /// The resource can not be sufficiently identified for finding resources
    /// attached to it.
    UnidentifiableResource,
}

/// The mathematical value of an [`Error`].
pub enum ErrorView {
    Status { status: u16 },
    Api { status: u16, message: Seq<char> },
    Download { source: DownloadErrorView },
    UnidentifiableResource,
}

impl DeepView for Error {
    type V = ErrorView;

    open spec fn deep_view(&self) -> ErrorView {
        match self {
            Error::Status { status } => ErrorView::Status { status: *status },
            Error::Api { status, message } => ErrorView::Api {
                status: *status,
                message: message@,
            },
            Error::Download { source } => ErrorView::Download { source: source.deep_view() },
            Error::UnidentifiableResource => ErrorView::UnidentifiableResource,
        }
    }
}

/// What `http::StatusCode::canonical_reason` says of a status code: the
/// standard phrase, or nothing where the crate knows none or the number is
/// no status code.
pub uninterp spec fn status_reason(status: u16) -> Option<Seq<char>>;

/// `http::StatusCode::from_u16`, then `StatusCode::canonical_reason`. The
/// contract names the outcome after the number.
#[verifier::external_body]
fn canonical_reason(status: u16) -> (r: Option<String>)
    ensures
        r.deep_view() == status_reason(status),
{
    http::StatusCode::from_u16(status).ok().and_then(|code| code.canonical_reason()).map(
        |phrase| phrase.to_owned(),
    )
}

/// The ten decimal digits.
pub open spec fn decimal_digits() -> Seq<char> {
    seq!['0', '1', '2', '3', '4', '5', '6', '7', '8', '9']
}

/// A number in decimal digits.
pub open spec fn decimal(n: nat) -> Seq<char>
    decreases n,
{
    if n < 10 {
        seq![decimal_digits()[n as int]]
    } else {
        decimal(n / 10) + seq![decimal_digits()[(n % 10) as int]]
    }
}

/// The decimal digit of a number below ten.
fn decimal_digit(n: u16) -> (r: char)
    requires
        n < 10,
    ensures
        r == decimal_digits()[n as int],
{
    if n == 0 {
        '0'
    } else if n == 1 {
        '1'
    } else if n == 2 {
        '2'
    } else if n == 3 {
        '3'
    } else if n == 4 {
        '4'
    } else if n == 5 {
        '5'
    } else if n == 6 {
        '6'
    } else if n == 7 {
        '7'
    } else if n == 8 {
        '8'
    } else {
        '9'
    }
}

/// Appends a number in decimal digits.
fn push_decimal(out: &mut String, n: u16)
    ensures
        final(out)@ == old(out)@ + decimal(n as nat),
    decreases n,
{
    if n >= 10 {
        push_decimal(out, n / 10);
    }
    push_char(out, decimal_digit(n % 10));
    assert(out@ =~= old(out)@ + decimal(n as nat));
}

/// What is said of a resource that can not be identified.
pub open spec fn unidentifiable() -> Seq<char> {
    "The resource can not be sufficiently identified "@ + "for finding resources attached to it."@
}

impl ErrorView {
    /// The error in words.
    pub open spec fn message(self) -> Seq<char> {
        match self {
            ErrorView::Status { status } => "HTTP Status: "@ + match status_reason(status) {
                Some(phrase) => phrase,
                None => decimal(status as nat),
            },
            ErrorView::Api { message, .. } => message,
            ErrorView::Download { .. } => "Failed downloading the response."@,
            ErrorView::UnidentifiableResource => unidentifiable(),
        }
    }
}

impl Error {
    /// The error in words: the standard phrase of a status, or its number
    /// where there is no phrase; the message of the service; or what went
    /// wrong here.
    pub fn message(&self) -> (r: String)
        ensures
            r@ == self.deep_view().message(),
    {
        match self {
            Error::Status { status } => {
                let mut out = "HTTP Status: ".to_owned();
                match canonical_reason(*status) {
                    Some(phrase) => {
                        out.append(phrase.as_str());
                    },
                    None => {
                        push_decimal(&mut out, *status);
                    },
                }
                out
            },
            Error::Api { message, .. } => message.clone(),
            Error::Download { .. } => "Failed downloading the response.".to_owned(),
            Error::UnidentifiableResource => {
                let mut out = "The resource can not be sufficiently identified ".to_owned();
                out.append("for finding resources attached to it.");
                out
            },
        }
    }
}

/// Whether a status says that the request succeeded.
pub open spec fn is_success(status: u16) -> bool {
    200 <= status < 300
}

/// The message of an error that the service reports in the body of an
/// answer: the string under `error`, or else the one under `message`.
pub open spec fn api_error(doc: JsonView) -> Option<Seq<char>> {
    if required_member::<String>(doc, "error"@) is Some {
        required_member::<String>(doc, "error"@)
    } else {
        required_member::<String>(doc, "message"@)
    }
}

/// What the status and the body of an answer say of the request: nothing
/// for a success; for a failure the error that the body reports, or the
/// bare status where the body reports none.
pub open spec fn checked(status: u16, body: Seq<char>) -> Result<(), ErrorView> {
    if is_success(status) {
        Ok(())
    } else {
        match json_parse(body) {
            Ok(doc) => match api_error(doc) {
                Some(message) => Err(ErrorView::Api { status, message }),
                None => Err(ErrorView::Status { status }),
            },
            Err(_) => Err(ErrorView::Status { status }),
        }
    }
}

/// What an answer holds: the value that its body describes, or the error
/// that it turned out to be.
pub open spec fn answered<T: Decode>(status: u16, body: Seq<char>) -> Result<T::V, ErrorView> {
    match checked(status, body) {
        Ok(_) => match json_parse(body) {
            Ok(doc) => match T::decoded(doc) {
                Some(value) => Ok(value),
                None => Err(
                    ErrorView::Download {
                        source: DownloadErrorView::Parse { source: ParseErrorView::Payload },
                    },
                ),
            },
            Err(message) => Err(
                ErrorView::Download {
                    source: DownloadErrorView::Parse {
                        source: ParseErrorView::Syntax { message },
                    },
                },
            ),
        },
        Err(e) => Err(e),
    }
}

/// Tells a failed request from its answer.
pub fn check_response(status: u16, body: &str) -> (r: Result<(), Error>)
    ensures
        match r {
            Ok(_) => checked(status, body@) is Ok,
            Err(e) => checked(status, body@) == Err::<(), ErrorView>(e.deep_view()),
        },
{
    if 200 <= status && status < 300 {
        return Ok(());
    }
    match Json::parse(body) {
        Ok(doc) => {
            let reported = match required::<String>(&doc, "error") {
                Some(message) => Some(message),
                None => required::<String>(&doc, "message"),
            };
            match reported {
                Some(message) => Err(Error::Api { status, message }),
                None => Err(Error::Status { status }),
            }
        },
        Err(_) => Err(Error::Status { status }),
    }
}

/// Reads what an answer holds.
pub fn decode_response<T: Decode>(status: u16, body: &str) -> (r: Result<T, Error>)
    ensures
        result_view(r) == answered::<T>(status, body@),
{
    match check_response(status, body) {
        Ok(_) => {},
        Err(e) => {
            return Err(e);
        },
    }
    match Json::parse(body) {
        Ok(doc) => match T::from_json(&doc) {
            Some(value) => Ok(value),
            None => Err(
                Error::Download { source: DownloadError::Parse { source: ParseError::Payload } },
            ),
        },
        Err(message) => Err(
            Error::Download {
                source: DownloadError::Parse { source: ParseError::Syntax { message } },
            },
        ),
    }
}

/// A client that can access the splits.io API. This includes an access token
/// that is used for authentication to all API endpoints.
#[derive(Debug, PartialEq)]
pub struct Client {
    access_token: Option<String>,
}

impl Client {
    /// What goes under `authorization` with every request, if anything.
    pub closed spec fn authorization(&self) -> Option<Seq<char>> {
        self.access_token.deep_view()
    }

    /// Creates a new client, which has no access token.
    pub fn new() -> (r: Client)
        ensures
            r.authorization() is None,
    {
        Client { access_token: None }
    }

    /// Sets the client's access token, which can be used to authenticate to
    /// all API endpoints.
    pub fn set_access_token(&mut self, access_token: &str)
        ensures
            final(self).authorization() == Some("Bearer "@ + access_token@),
    {
        let mut value = "Bearer ".to_owned();
        value.append(access_token);
        self.access_token = Some(value);
    }

    /// What goes under `authorization` with every request, if anything.
    pub fn access_token(&self) -> (r: Option<&String>)
        ensures
            r.deep_view() == self.authorization(),
    {
        self.access_token.as_ref()
    }

    /// The request as this client sends it: with the access token under
    /// `authorization`, where the client has one.
    pub fn authorize(&self, request: Request) -> (r: Request)
        ensures
            r.deep_view() == match self.authorization() {
                Some(value) => RequestView {
                    headers: request.deep_view().headers.push(("authorization"@, value)),
                    ..request.deep_view()
                },
                None => request.deep_view(),
            },
    {
        match &self.access_token {
            Some(value) => request.header("authorization", value.as_str()),
            None => request,
        }
    }
}

impl Default for Client {
    fn default() -> (r: Client)
        ensures
            r.authorization() is None,
    {
        Client::new()
    }
}

} // verus!
