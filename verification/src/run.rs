//! The run module describes the requests that concern Runs. A Run maps
//! directly to an uploaded splits file.

use vstd::prelude::*;
use crate::client::Error;
use crate::client::ErrorView;
use crate::decode::required;
use crate::decode::required_member;
use crate::decode::Decode;
use crate::json::Json;
use crate::json::JsonView;
use crate::request::address_at;
use crate::request::request_to;
use crate::request::Address;
use crate::request::AddressView;
use crate::request::Method;
use crate::request::Request;
use crate::request::RequestView;
use crate::schema::Run;

verus! {

/// The address of the collection of runs.
pub open spec fn runs_address() -> Seq<char> {
    "https://splits.io/api/v4/runs"@
}

/// The address of the site.
pub open spec fn site_address() -> Seq<char> {
    "https://splits.io"@
}

/// The address of a run in the collection of runs.
pub open spec fn run_address(id: Seq<char>) -> AddressView {
    address_at(runs_address()).segment(id)
}

/// The address of a run, and beside it `historic=1` where the histories of
/// the run are asked for.
pub open spec fn run_query(id: Seq<char>, historic: bool) -> AddressView {
    if historic {
        run_address(id).pair("historic"@, "1"@)
    } else {
        run_address(id)
    }
}

/// The request that downloads the splits for a Run: it asks for the file
/// as the timer wrote it.
pub open spec fn download_request(id: Seq<char>) -> RequestView {
    RequestView {
        method: Method::Get,
        address: run_address(id),
        headers: seq![("accept"@, "application/original-timer"@)],
        body: None,
    }
}

/// Downloads the splits for a Run.
pub fn download(id: &str) -> (r: Request)
    ensures
        r.deep_view() == download_request(id@),
{
    let address = Address::new("https://splits.io/api/v4/runs").segment(id);
    let r = Request::new(Method::Get, address).header("accept", "application/original-timer");
    assert(r.deep_view().headers =~= seq![("accept"@, "application/original-timer"@)]);
    r
}

/// Gets a Run.
pub fn get(id: &str, historic: bool) -> (r: Request)
    ensures
        r.deep_view() == request_to(Method::Get, run_query(id@, historic)),
{
    let address = Address::new("https://splits.io/api/v4/runs").segment(id);
    if historic {
        Request::new(Method::Get, address.pair("historic", "1"))
    } else {
        Request::new(Method::Get, address)
    }
}

/// Asks for a place to upload a run to.
pub fn upload() -> (r: Request)
    ensures
        r.deep_view() == request_to(Method::Post, address_at(runs_address())),
{
    Request::new(Method::Post, Address::new("https://splits.io/api/v4/runs"))
}

/// The fields that go with an upload and show that it was asked for.
#[derive(Debug, PartialEq)]
pub struct PresignedRequestFields {
    pub key: String,
    pub policy: String,
    pub credential: String,
    pub algorithm: String,
    pub date: String,
    pub signature: String,
}

/// The mathematical value of [`PresignedRequestFields`].
pub struct PresignedRequestFieldsView {
    pub key: Seq<char>,
    pub policy: Seq<char>,
    pub credential: Seq<char>,
    pub algorithm: Seq<char>,
    pub date: Seq<char>,
    pub signature: Seq<char>,
}

impl DeepView for PresignedRequestFields {
    type V = PresignedRequestFieldsView;

    open spec fn deep_view(&self) -> PresignedRequestFieldsView {
        PresignedRequestFieldsView {
            key: self.key.deep_view(),
            policy: self.policy.deep_view(),
            credential: self.credential.deep_view(),
            algorithm: self.algorithm.deep_view(),
            date: self.date.deep_view(),
            signature: self.signature.deep_view(),
        }
    }
}

impl Decode for PresignedRequestFields {
    open spec fn decoded(doc: JsonView) -> Option<PresignedRequestFieldsView> {
        if required_member::<String>(doc, "key"@) is Some
            && required_member::<String>(doc, "policy"@) is Some
            && required_member::<String>(doc, "x-amz-credential"@) is Some
            && required_member::<String>(doc, "x-amz-algorithm"@) is Some
            && required_member::<String>(doc, "x-amz-date"@) is Some
            && required_member::<String>(doc, "x-amz-signature"@) is Some
        {
            Some(
                PresignedRequestFieldsView {
                    key: required_member::<String>(doc, "key"@)->0,
                    policy: required_member::<String>(doc, "policy"@)->0,
                    credential: required_member::<String>(doc, "x-amz-credential"@)->0,
                    algorithm: required_member::<String>(doc, "x-amz-algorithm"@)->0,
                    date: required_member::<String>(doc, "x-amz-date"@)->0,
                    signature: required_member::<String>(doc, "x-amz-signature"@)->0,
                },
            )
        } else {
            None
        }
    }

    fn from_json(doc: &Json) -> (r: Option<PresignedRequestFields>) {
        let key = required::<String>(doc, "key")?;
        let policy = required::<String>(doc, "policy")?;
        let credential = required::<String>(doc, "x-amz-credential")?;
        let algorithm = required::<String>(doc, "x-amz-algorithm")?;
        let date = required::<String>(doc, "x-amz-date")?;
        let signature = required::<String>(doc, "x-amz-signature")?;
        Some(PresignedRequestFields { key, policy, credential, algorithm, date, signature })
    }
}

/// Where an upload goes, and the fields that go with it.
#[derive(Debug, PartialEq)]
pub struct PresignedRequest {
    pub uri: String,
    pub fields: PresignedRequestFields,
}

/// The mathematical value of a [`PresignedRequest`].
pub struct PresignedRequestView {
    pub uri: Seq<char>,
    pub fields: PresignedRequestFieldsView,
}

impl DeepView for PresignedRequest {
    type V = PresignedRequestView;

    open spec fn deep_view(&self) -> PresignedRequestView {
        PresignedRequestView { uri: self.uri.deep_view(), fields: self.fields.deep_view() }
    }
}

impl Decode for PresignedRequest {
    open spec fn decoded(doc: JsonView) -> Option<PresignedRequestView> {
        match (
            required_member::<String>(doc, "uri"@),
            required_member::<PresignedRequestFields>(doc, "fields"@),
        ) {
            (Some(uri), Some(fields)) => Some(PresignedRequestView { uri, fields }),
            _ => None,
        }
    }

    fn from_json(doc: &Json) -> (r: Option<PresignedRequest>) {
        let uri = required::<String>(doc, "uri")?;
        let fields = required::<PresignedRequestFields>(doc, "fields")?;
        Some(PresignedRequest { uri, fields })
    }
}

/// The answer to the request for a place to upload a run to.
#[derive(Debug, PartialEq)]
pub struct UploadResponse {
    pub id: String,
    pub claim_token: String,
    pub presigned_request: PresignedRequest,
}

/// The mathematical value of an [`UploadResponse`].
pub struct UploadResponseView {
    pub id: Seq<char>,
    pub claim_token: Seq<char>,
    pub presigned_request: PresignedRequestView,
}

impl DeepView for UploadResponse {
    type V = UploadResponseView;

    open spec fn deep_view(&self) -> UploadResponseView {
        UploadResponseView {
            id: self.id.deep_view(),
            claim_token: self.claim_token.deep_view(),
            presigned_request: self.presigned_request.deep_view(),
        }
    }
}

impl Decode for UploadResponse {
    open spec fn decoded(doc: JsonView) -> Option<UploadResponseView> {
        match (
            required_member::<String>(doc, "id"@),
            required_member::<String>(doc, "claim_token"@),
            required_member::<PresignedRequest>(doc, "presigned_request"@),
        ) {
            (Some(id), Some(claim_token), Some(presigned_request)) => Some(
                UploadResponseView { id, claim_token, presigned_request },
            ),
            _ => None,
        }
    }

    fn from_json(doc: &Json) -> (r: Option<UploadResponse>) {
        let id = required::<String>(doc, "id")?;
        let claim_token = required::<String>(doc, "claim_token")?;
        let presigned_request = required::<PresignedRequest>(doc, "presigned_request")?;
        Some(UploadResponse { id, claim_token, presigned_request })
    }
}

/// A form that carries a file: where it goes, its text fields in their
/// order, and the file, which goes last under `file`.
#[derive(Debug, PartialEq)]
pub struct UploadForm {
    pub uri: String,
    pub fields: Vec<(String, String)>,
    pub file: Vec<u8>,
}

/// The mathematical value of an [`UploadForm`].
pub struct UploadFormView {
    pub uri: Seq<char>,
    pub fields: Seq<(Seq<char>, Seq<char>)>,
    pub file: Seq<u8>,
}

impl DeepView for UploadForm {
    type V = UploadFormView;

    open spec fn deep_view(&self) -> UploadFormView {
        UploadFormView {
            uri: self.uri.deep_view(),
            fields: self.fields.deep_view(),
            file: self.file@,
        }
    }
}

/// A run that was uploaded to splits.io.
#[derive(Debug, PartialEq)]
pub struct UploadedRun {
    /// The unique ID for identifying the run.
    pub id: String,
    /// The token that can be used by the user to claim the run as their own.
    pub claim_token: String,
}

/// The mathematical value of an [`UploadedRun`].
pub struct UploadedRunView {
    pub id: Seq<char>,
    pub claim_token: Seq<char>,
}

impl DeepView for UploadedRun {
    type V = UploadedRunView;

    open spec fn deep_view(&self) -> UploadedRunView {
        UploadedRunView { id: self.id.deep_view(), claim_token: self.claim_token.deep_view() }
    }
}

impl UploadResponseView {
    /// The form by which the file is uploaded.
    pub open spec fn form(self, file: Seq<u8>) -> UploadFormView {
        let fields = self.presigned_request.fields;
        UploadFormView {
            uri: self.presigned_request.uri,
            fields: seq![
                ("key"@, fields.key),
                ("policy"@, fields.policy),
                ("x-amz-credential"@, fields.credential),
                ("x-amz-algorithm"@, fields.algorithm),
                ("x-amz-date"@, fields.date),
                ("x-amz-signature"@, fields.signature),
            ],
            file,
        }
    }

    /// The run that has been uploaded once the form has gone through.
    pub open spec fn uploaded(self) -> UploadedRunView {
        UploadedRunView { id: self.id, claim_token: self.claim_token }
    }
}

impl UploadResponse {
    /// Fills in the form by which the file of a run is uploaded, and names
    /// the run that has been uploaded once the form has gone through.
    pub fn form(self, run: Vec<u8>) -> (r: (UploadForm, UploadedRun))
        ensures
            r.0.deep_view() == self.deep_view().form(run@),
            r.1.deep_view() == self.deep_view().uploaded(),
    {
        let UploadResponse { id, claim_token, presigned_request } = self;
        let PresignedRequest { uri, fields } = presigned_request;
        let mut pairs: Vec<(String, String)> = Vec::new();
        pairs.push(("key".to_owned(), fields.key));
        pairs.push(("policy".to_owned(), fields.policy));
        pairs.push(("x-amz-credential".to_owned(), fields.credential));
        pairs.push(("x-amz-algorithm".to_owned(), fields.algorithm));
        pairs.push(("x-amz-date".to_owned(), fields.date));
        pairs.push(("x-amz-signature".to_owned(), fields.signature));
        assert(pairs.deep_view() =~= self.deep_view().form(run@).fields);
        (UploadForm { uri, fields: pairs, file: run }, UploadedRun { id, claim_token })
    }
}

/// The address of a run on the site.
pub open spec fn public_address(id: Seq<char>) -> AddressView {
    address_at(site_address()).segment(id)
}

impl UploadedRun {
    /// Gets the uploaded run.
    pub fn get(&self, historic: bool) -> (r: Request)
        ensures
            r.deep_view() == request_to(Method::Get, run_query(self.id@, historic)),
    {
        self::get(self.id.as_str(), historic)
    }

    /// Retrieves the public URL of the uploaded run.
    pub fn public_url(&self) -> (r: Address)
        ensures
            r.deep_view() == public_address(self.id@),
    {
        Address::new("https://splits.io").segment(self.id.as_str())
    }

    /// Retrieves the URL to claim the uploaded run.
    pub fn claim_url(&self) -> (r: Address)
        ensures
            r.deep_view() == public_address(self.id@).pair("claim_token"@, self.claim_token@),
    {
        self.public_url().pair("claim_token", self.claim_token.as_str())
    }
}

impl Run {
    /// Downloads the splits for the Run.
    pub fn download(&self) -> (r: Result<Request, Error>)
        ensures
            match r {
                Ok(request) => self.id.deep_view() matches Some(id) && request.deep_view()
                    == download_request(id),
                Err(e) => self.id is None && e.deep_view() == ErrorView::UnidentifiableResource,
            },
    {
        match &self.id {
            Some(id) => Ok(self::download(id.as_str())),
            None => Err(Error::UnidentifiableResource),
        }
    }

    /// Gets a Run.
    pub fn get(id: &str, historic: bool) -> (r: Request)
        ensures
            r.deep_view() == request_to(Method::Get, run_query(id@, historic)),
    {
        self::get(id, historic)
    }

    /// Asks for a place to upload a run to.
    pub fn upload() -> (r: Request)
        ensures
            r.deep_view() == request_to(Method::Post, address_at(runs_address())),
    {
        self::upload()
    }

    /// Retrieves the public URL of the run. This may fail if the run is
    /// unidentifiable.
    pub fn url(&self) -> (r: Result<Address, Error>)
        ensures
            match r {
                Ok(address) => self.id.deep_view() matches Some(id) && address.deep_view()
                    == public_address(id),
                Err(e) => self.id is None && e.deep_view() == ErrorView::UnidentifiableResource,
            },
    {
        match &self.id {
            Some(id) => Ok(Address::new("https://splits.io").segment(id.as_str())),
            None => Err(Error::UnidentifiableResource),
        }
    }
}

/// Handles writing a run to the body of an upload request.
#[derive(Debug, PartialEq)]
pub struct RunWriter(Vec<u8>);

impl RunWriter {
    /// The bytes that have been written.
    pub closed spec fn written(&self) -> Seq<u8> {
        self.0@
    }

    /// A writer to which nothing has been written.
    pub fn new() -> (r: RunWriter)
        ensures
            r.written() == Seq::<u8>::empty(),
    {
        RunWriter(Vec::new())
    }

    /// Writes all of `buf` after what has been written, and says how many
    /// bytes that were.
    pub fn write(&mut self, buf: &[u8]) -> (r: usize)
        ensures
            final(self).written() == old(self).written() + buf@,
            r == buf@.len(),
    {
        self.0.extend_from_slice(buf);
        buf.len()
    }

    /// Does nothing: what is written is kept as it is written.
    pub fn flush(&mut self)
        ensures
            final(self).written() == old(self).written(),
    {
    }

    /// Hands out the bytes that have been written.
    pub fn into_bytes(self) -> (r: Vec<u8>)
        ensures
            r@ == self.written(),
    {
        self.0
    }
}

} // verus!
