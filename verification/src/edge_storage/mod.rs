//! Edge Storage API
//!
//! Contains enums, structs and functions for the Bunny Edge Storage API

use crate::error::{Error, UrlError};
use crate::header::{default_headers_of, header_safe, AccessKey, ACCEPT};
use crate::request::{pair_views, Method, Operation, Pair, Request, RequestView};
use crate::text::{strip_leading_slashes, without_leading_slashes};
use crate::web_url::{has_scheme, joined, Url};
use bytes::Bytes;
use vstd::prelude::*;
use vstd::utf8::is_ascii_chars;

mod endpoint;
pub use endpoint::Endpoint;
mod list_file;
pub use list_file::ListFile;

verus! {

/// The name of the header that says what a request body holds.
pub const CONTENT_TYPE: &'static str = "Content-Type";

/// The content type of raw bytes.
pub const OCTET_STREAM: &'static str = "application/octet-stream";

/// The range of content types that takes anything.
pub const ANY_CONTENT: &'static str = "*/*";

/// The path of a storage zone below the root of its host: the zone's name
/// between two slashes.
pub open spec fn zone_segment(storage_zone: Seq<char>) -> Seq<char> {
    seq!['/'] + storage_zone + seq!['/']
}

/// The root URL of a storage zone: the zone's segment resolved against the
/// endpoint's base URL. `None` where the endpoint's address is no URL or
/// the segment cannot be resolved against it.
pub open spec fn zone_root(endpoint: Endpoint, storage_zone: Seq<char>) -> Option<Seq<char>> {
    match endpoint.resolution() {
        Some(base) => joined(base, zone_segment(storage_zone)),
        None => None,
    }
}

/// What the URL parser makes of the path of an object: the path, without
/// the slashes that it begins with, resolved against the zone's root.
pub open spec fn resolved_path(root: Seq<char>, path: Seq<char>) -> Option<Seq<char>> {
    joined(root, without_leading_slashes(path))
}

/// Whether `url` lies in the storage zone with the root `root`: it begins
/// with the whole of the root, and so has its scheme and host and a path at
/// or below the zone's.
pub open spec fn in_zone(root: Seq<char>, url: Seq<char>) -> bool {
    root.is_prefix_of(url)
}

/// The URL of an object: what its path resolves to, where that lies in
/// the storage zone. `None` where the path does not resolve, or resolves
/// to a URL outside the zone.
pub open spec fn object_url(root: Seq<char>, path: Seq<char>) -> Option<Seq<char>> {
    match resolved_path(root, path) {
        Some(url) => if in_zone(root, url) {
            Some(url)
        } else {
            None
        },
        None => None,
    }
}

/// The request of a storage operation on the object at `url`.
pub open spec fn storage_request(operation: Operation, url: Seq<char>, file: Option<Bytes>)
    -> RequestView {
    RequestView {
        operation,
        method: match operation {
            Operation::Upload => Method::Put,
            Operation::Delete => Method::Delete,
            _ => Method::Get,
        },
        url,
        headers: match operation {
            Operation::Upload => seq![(CONTENT_TYPE@, OCTET_STREAM@)],
            Operation::Download => seq![(ACCEPT@, ANY_CONTENT@)],
            _ => Seq::empty(),
        },
        body: file,
    }
}

/// What a storage operation on `path` below `root` comes to: its request,
/// or nothing where the path does not resolve to a URL in the zone.
pub open spec fn storage_call(
    operation: Operation,
    root: Seq<char>,
    path: Seq<char>,
    file: Option<Bytes>,
) -> Option<RequestView> {
    match object_url(root, path) {
        Some(url) => Some(storage_request(operation, url, file)),
        None => None,
    }
}

/// Whether `r` is the outcome of the storage call `expected`: its request,
/// or a URL parse error where there is none.
pub open spec fn is_outcome(r: Result<Request, Error>, expected: Option<RequestView>) -> bool {
    match r {
        Ok(request) => expected == Some(request@),
        Err(e) => expected is None && e is ParseError,
    }
}

/// Whether `r`, where it is a request, goes to a URL in the storage zone
/// with the root `root`.
pub open spec fn stays_in_zone(r: Result<Request, Error>, root: Seq<char>) -> bool {
    r matches Ok(request) ==> in_zone(root, request@.url)
}

/// Writes the path of a storage zone below the root of its host.
pub fn zone_path(storage_zone: &str) -> (r: String)
    ensures
        r@ == zone_segment(storage_zone@),
{
    proof {
        reveal_strlit("/");
    }
    let mut segment = String::from_str("/");
    segment.append(storage_zone);
    segment.append("/");
    assert(segment@ =~= zone_segment(storage_zone@));
    segment
}

fn resolve_zone(endpoint: Endpoint, storage_zone: &str) -> (r: Result<Url, Error>)
    ensures
        match r {
            Ok(url) => zone_root(endpoint, storage_zone@) == Some(url@),
            Err(e) => zone_root(endpoint, storage_zone@) is None && e.is_parser_refusal(),
        },
        !has_scheme(endpoint.address()) ==> r is Err,
{
    let base = endpoint.try_into()?;
    let segment = zone_path(storage_zone);
    base.join(segment.as_str())
}

/// The request that puts the bytes of `file` at `url` as an octet stream.
pub fn upload_request(url: &Url, file: Bytes) -> (r: Request)
    ensures
        r@ == storage_request(Operation::Upload, url@, Some(file)),
{
    let mut headers: Vec<Pair> = Vec::new();
    headers.push(Pair::new(CONTENT_TYPE, OCTET_STREAM));
    assert(pair_views(headers@) =~= seq![(CONTENT_TYPE@, OCTET_STREAM@)]);
    Request {
        operation: Operation::Upload,
        method: Method::Put,
        url: String::from_str(url.as_str()),
        headers,
        body: Some(file),
    }
}

/// The request that gets the object at `url`, whatever its content type.
pub fn download_request(url: &Url) -> (r: Request)
    ensures
        r@ == storage_request(Operation::Download, url@, None),
{
    let mut headers: Vec<Pair> = Vec::new();
    headers.push(Pair::new(ACCEPT, ANY_CONTENT));
    assert(pair_views(headers@) =~= seq![(ACCEPT@, ANY_CONTENT@)]);
    Request {
        operation: Operation::Download,
        method: Method::Get,
        url: String::from_str(url.as_str()),
        headers,
        body: None,
    }
}

/// The request that deletes the object at `url`.
pub fn delete_request(url: &Url) -> (r: Request)
    ensures
        r@ == storage_request(Operation::Delete, url@, None),
{
    let headers: Vec<Pair> = Vec::new();
    assert(pair_views(headers@) =~= Seq::empty());
    Request {
        operation: Operation::Delete,
        method: Method::Delete,
        url: String::from_str(url.as_str()),
        headers,
        body: None,
    }
}

/// The request that lists the directory at `url`.
pub fn list_request(url: &Url) -> (r: Request)
    ensures
        r@ == storage_request(Operation::List, url@, None),
{
    let headers: Vec<Pair> = Vec::new();
    assert(pair_views(headers@) =~= Seq::empty());
    Request {
        operation: Operation::List,
        method: Method::Get,
        url: String::from_str(url.as_str()),
        headers,
        body: None,
    }
}

/// Edge Storage API for bunny: one storage zone at one endpoint
#[derive(Debug, Clone, PartialEq, Eq)]
pub struct Storage {
    url: Url,
}

impl View for Storage {
    type V = Seq<char>;

    /// The root URL of the storage zone.
    closed spec fn view(&self) -> Seq<char> {
        self.url@
    }
}

impl Storage {
    /// Sets endpoint and storage zone used by Edge Storage API
    ///
    /// On success the storage points at the root of the zone. Where the
    /// endpoint or the zone does not resolve, the error says so and the
    /// storage is left as it was. An endpoint whose address has no scheme
    /// never resolves.
    pub fn init(&mut self, endpoint: Endpoint, storage_zone: &str) -> (r: Result<(), Error>)
        ensures
            match r {
                Ok(_) => zone_root(endpoint, storage_zone@) == Some(final(self)@),
                Err(e) => zone_root(endpoint, storage_zone@) is None && e.is_parser_refusal()
                    && *final(self) == *old(self),
            },
            !has_scheme(endpoint.address()) ==> r is Err,
    {
        match resolve_zone(endpoint, storage_zone) {
            Ok(url) => {
                self.url = url;
                Ok(())
            },
            Err(e) => Err(e),
        }
    }

    /// The root URL of the storage zone.
    pub fn root(&self) -> (r: &Url)
        ensures
            r@ == self@,
    {
        &self.url
    }

    /// Lets `url` through where it lies in the storage zone, and refuses
    /// it as outside the zone where it does not.
    pub fn confine(&self, url: Url) -> (r: Result<Url, Error>)
        ensures
            match r {
                Ok(same) => in_zone(self@, url@) && same == url,
                Err(e) => !in_zone(self@, url@) && e.is_outside_zone(),
            },
    {
        if url.is_under(&self.url) {
            Ok(url)
        } else {
            Err(Error::ParseError(UrlError::OutsideZone))
        }
    }

    /// Resolves the path of an object to its URL.
    ///
    /// The path is read relative to the zone's root: the slashes that it
    /// begins with are dropped before it is resolved against the root. A
    /// path that the URL parser refuses is an error, and so is one that
    /// resolves to a URL outside the zone: one with a scheme or a host of
    /// its own, or one that climbs above the root.
    pub fn object(&self, path: &str) -> (r: Result<Url, Error>)
        ensures
            match r {
                Ok(url) => object_url(self@, path@) == Some(url@),
                Err(e) => {
                    &&& object_url(self@, path@) is None
                    &&& e is ParseError
                    &&& e.is_parser_refusal() <==> resolved_path(self@, path@) is None
                    &&& e.is_outside_zone() <==> resolved_path(self@, path@) is Some
                },
            },
            r matches Ok(url) ==> in_zone(self@, url@),
    {
        match self.url.join(strip_leading_slashes(path)) {
            Ok(url) => self.confine(url),
            Err(e) => Err(e),
        }
    }

    /// Returns the request that uploads a file to the Storage Zone
    ///
    /// The path is read relative to the zone's root. The request puts the
    /// bytes of `file` there as an octet stream.
    pub fn upload(&self, path: &str, file: Bytes) -> (r: Result<Request, Error>)
        ensures
            is_outcome(r, storage_call(Operation::Upload, self@, path@, Some(file))),
            stays_in_zone(r, self@),
    {
        match self.object(path) {
            Ok(url) => Ok(upload_request(&url, file)),
            Err(e) => Err(e),
        }
    }

    /// Returns the request that downloads a file from the Storage Zone
    ///
    /// The path is read relative to the zone's root. The request takes any
    /// content type.
    pub fn download(&self, path: &str) -> (r: Result<Request, Error>)
        ensures
            is_outcome(r, storage_call(Operation::Download, self@, path@, None)),
            stays_in_zone(r, self@),
    {
        match self.object(path) {
            Ok(url) => Ok(download_request(&url)),
            Err(e) => Err(e),
        }
    }

    /// Returns the request that deletes a file from the Storage Zone
    ///
    /// The path is read relative to the zone's root.
    pub fn delete(&self, path: &str) -> (r: Result<Request, Error>)
        ensures
            is_outcome(r, storage_call(Operation::Delete, self@, path@, None)),
            stays_in_zone(r, self@),
    {
        match self.object(path) {
            Ok(url) => Ok(delete_request(&url)),
            Err(e) => Err(e),
        }
    }

    /// Returns the request that lists files on the Storage Zone
    ///
    /// The path is read relative to the zone's root.
    pub fn list(&self, path: &str) -> (r: Result<Request, Error>)
        ensures
            is_outcome(r, storage_call(Operation::List, self@, path@, None)),
            stays_in_zone(r, self@),
    {
        match self.object(path) {
            Ok(url) => Ok(list_request(&url)),
            Err(e) => Err(e),
        }
    }
}

/// Edge Storage API for bunny
#[derive(Debug, Clone)]
pub struct EdgeStorageClient {
    /// The API key that the client was made with
    pub key: AccessKey,
    /// The storage zone that the client works on
    pub storage: Storage,
}

impl EdgeStorageClient {
    /// Creates a new EdgeStorageClient using the supplied `api_key`
    ///
    /// A key that cannot be sent as a header value is refused first, as an
    /// invalid header. Then the endpoint and the zone must resolve to the
    /// zone's root URL, or the error is a URL parse error. An endpoint
    /// whose address has no scheme never resolves.
    pub fn new(api_key: &str, endpoint: Endpoint, storage_zone: &str) -> (r: Result<
        EdgeStorageClient,
        Error,
    >)
        ensures
            match r {
                Ok(client) => {
                    &&& header_safe(api_key@)
                    &&& client.key@ == api_key@
                    &&& zone_root(endpoint, storage_zone@) == Some(client.storage@)
                },
                Err(e) => if header_safe(api_key@) {
                    zone_root(endpoint, storage_zone@) is None && e.is_parser_refusal()
                } else {
                    e is InvalidHeader
                },
            },
            !is_ascii_chars(api_key@) ==> (r matches Err(e) && e is InvalidHeader),
            !has_scheme(endpoint.address()) ==> r is Err,
    {
        let key = AccessKey::new(api_key)?;
        let url = resolve_zone(endpoint, storage_zone)?;
        Ok(EdgeStorageClient { key, storage: Storage { url } })
    }

    /// The headers that the transport sends with every request of this
    /// client. Each value can be sent as a header value.
    pub fn default_headers(&self) -> (r: Vec<Pair>)
        ensures
            pair_views(r@) == default_headers_of(self.key@),
            header_safe(self.key@),
    {
        self.key.headers()
    }

    /// Returns the request that uploads a file to the Storage Zone
    ///
    /// The path is read relative to the zone's root. The request puts the
    /// bytes of `file` there as an octet stream.
    pub fn upload(&self, path: &str, file: Bytes) -> (r: Result<Request, Error>)
        ensures
            is_outcome(r, storage_call(Operation::Upload, self.storage@, path@, Some(file))),
            stays_in_zone(r, self.storage@),
    {
        self.storage.upload(path, file)
    }

    /// Returns the request that downloads a file from the Storage Zone
    ///
    /// The path is read relative to the zone's root. The request takes any
    /// content type.
    pub fn download(&self, path: &str) -> (r: Result<Request, Error>)
        ensures
            is_outcome(r, storage_call(Operation::Download, self.storage@, path@, None)),
            stays_in_zone(r, self.storage@),
    {
        self.storage.download(path)
    }

    /// Returns the request that deletes a file from the Storage Zone
    ///
    /// The path is read relative to the zone's root.
    pub fn delete(&self, path: &str) -> (r: Result<Request, Error>)
        ensures
            is_outcome(r, storage_call(Operation::Delete, self.storage@, path@, None)),
            stays_in_zone(r, self.storage@),
    {
        self.storage.delete(path)
    }

    /// Returns the request that lists files on the Storage Zone
    ///
    /// The path is read relative to the zone's root.
    pub fn list(&self, path: &str) -> (r: Result<Request, Error>)
        ensures
            is_outcome(r, storage_call(Operation::List, self.storage@, path@, None)),
            stays_in_zone(r, self.storage@),
    {
        self.storage.list(path)
    }
}

} // verus!
