//! Requests as plain data, and what a response status means for each
//! operation.

use crate::error::{Error, ErrorKind};
use bytes::Bytes;
use vstd::prelude::*;

verus! {

/// A cheaply shared byte buffer of the `bytes` crate. Nothing inside it is
/// visible to the verifier; a request body is only carried through.
#[verifier::external_type_specification]
#[verifier::external_body]
pub struct ExBody(bytes::Bytes);

/// The HTTP methods that the two APIs use.
#[derive(Debug, Clone, Copy, PartialEq, Eq, Structural)]
pub enum Method {
    /// GET
    Get,
    /// POST
    Post,
    /// PUT
    Put,
    /// DELETE
    Delete,
}

impl Method {
    /// The method's name on the wire.
    pub open spec fn name(self) -> Seq<char> {
        match self {
            Method::Get => seq!['G', 'E', 'T'],
            Method::Post => seq!['P', 'O', 'S', 'T'],
            Method::Put => seq!['P', 'U', 'T'],
            Method::Delete => seq!['D', 'E', 'L', 'E', 'T', 'E'],
        }
    }

    /// The method's name on the wire.
    pub fn as_str(self) -> (r: &'static str)
        ensures
            r@ == self.name(),
    {
        proof {
            reveal_strlit("GET");
            reveal_strlit("POST");
            reveal_strlit("PUT");
            reveal_strlit("DELETE");
        }
        let r = match self {
            Method::Get => "GET",
            Method::Post => "POST",
            Method::Put => "PUT",
            Method::Delete => "DELETE",
        };
        assert(r@ =~= self.name());
        r
    }
}

/// A name and a value: one header, or one query parameter.
#[derive(Debug, Clone, PartialEq, Eq)]
pub struct Pair {
    /// The name
    pub name: String,
    /// The value
    pub value: String,
}

impl View for Pair {
    type V = (Seq<char>, Seq<char>);

    open spec fn view(&self) -> (Seq<char>, Seq<char>) {
        (self.name@, self.value@)
    }
}

impl Pair {
    /// Makes a pair of owned copies of `name` and `value`.
    pub fn new(name: &str, value: &str) -> (r: Pair)
        ensures
            r@ == (name@, value@),
    {
        Pair { name: String::from_str(name), value: String::from_str(value) }
    }
}

/// The views of a list of pairs, in order.
pub open spec fn pair_views(pairs: Seq<Pair>) -> Seq<(Seq<char>, Seq<char>)> {
    pairs.map_values(|p: Pair| p@)
}

/// The remote operations of the account API and of the storage API.
#[derive(Debug, Clone, Copy, PartialEq, Eq, Structural)]
pub enum Operation {
    /// Account API: list countries and tax rates
    CountryList,
    /// Account API: list API keys
    ApiKeyList,
    /// Account API: list regions
    RegionList,
    /// Account API: purge a URL from the cache
    Purge,
    /// Storage API: upload an object
    Upload,
    /// Storage API: download an object
    Download,
    /// Storage API: delete an object
    Delete,
    /// Storage API: list a directory
    List,
}

/// What the body of an accepted response holds.
#[derive(Debug, Clone, Copy, PartialEq, Eq, Structural)]
pub enum Payload {
    /// Nothing that the caller reads
    Nothing,
    /// The raw bytes of an object
    Raw,
    /// A JSON document to decode
    Json,
}

/// What to do with a response once its status is known.
#[derive(Debug, Clone, Copy, PartialEq, Eq, Structural)]
pub enum Verdict {
    /// Read the body as text and fail with the error of this kind around it
    Reject(ErrorKind),
    /// Take the payload from the body
    Accept(Payload),
}

impl Operation {
    /// Whether the operation belongs to the account API.
    pub open spec fn is_account(self) -> bool {
        self == Operation::CountryList || self == Operation::ApiKeyList || self
            == Operation::RegionList || self == Operation::Purge
    }

    /// The status-derived error of this operation for `status`, if there
    /// is one: 401 is an authentication failure everywhere; beyond that the
    /// account API knows 500, a download 404, and the other storage
    /// operations 400.
    pub open spec fn rejection(self, status: u16) -> Option<ErrorKind> {
        if status == 401 {
            Some(ErrorKind::Authentication)
        } else if self.is_account() {
            if status == 500 {
                Some(ErrorKind::InternalServerError)
            } else {
                None
            }
        } else if self == Operation::Download {
            if status == 404 {
                Some(ErrorKind::NotFound)
            } else {
                None
            }
        } else {
            if status == 400 {
                Some(ErrorKind::BadRequest)
            } else {
                None
            }
        }
    }

    /// What the body of an accepted response to this operation holds: the
    /// three listings are answered with JSON, a download with the bytes of
    /// the object, and a purge, an upload and a delete with nothing that
    /// the caller reads.
    pub open spec fn payload(self) -> Payload {
        match self {
            Operation::CountryList | Operation::ApiKeyList | Operation::RegionList
            | Operation::List => Payload::Json,
            Operation::Download => Payload::Raw,
            Operation::Purge | Operation::Upload | Operation::Delete => Payload::Nothing,
        }
    }

    /// What a response with `status` means for this operation.
    pub open spec fn verdict_for(self, status: u16) -> Verdict {
        match self.rejection(status) {
            Some(kind) => Verdict::Reject(kind),
            None => Verdict::Accept(self.payload()),
        }
    }

    /// The error that a response with `status` comes to once the text of
    /// its body is known to be `message`, where the operation rejects that
    /// status.
    pub open spec fn failure(self, status: u16, message: String) -> Option<Error> {
        match self.rejection(status) {
            Some(kind) => Some(kind.error(message)),
            None => None,
        }
    }

    /// Classifies a response by its status, before any of its body is read.
    pub fn verdict(self, status: u16) -> (r: Verdict)
        ensures
            r == self.verdict_for(status),
    {
        if status == 401 {
            return Verdict::Reject(ErrorKind::Authentication);
        }
        match self {
            Operation::CountryList | Operation::ApiKeyList | Operation::RegionList => {
                if status == 500 {
                    Verdict::Reject(ErrorKind::InternalServerError)
                } else {
                    Verdict::Accept(Payload::Json)
                }
            },
            Operation::Purge => {
                if status == 500 {
                    Verdict::Reject(ErrorKind::InternalServerError)
                } else {
                    Verdict::Accept(Payload::Nothing)
                }
            },
            Operation::Download => {
                if status == 404 {
                    Verdict::Reject(ErrorKind::NotFound)
                } else {
                    Verdict::Accept(Payload::Raw)
                }
            },
            Operation::Upload | Operation::Delete => {
                if status == 400 {
                    Verdict::Reject(ErrorKind::BadRequest)
                } else {
                    Verdict::Accept(Payload::Nothing)
                }
            },
            Operation::List => {
                if status == 400 {
                    Verdict::Reject(ErrorKind::BadRequest)
                } else {
                    Verdict::Accept(Payload::Json)
                }
            },
        }
    }
}

/// Every operation of the account API answers status 401 with an
/// authentication error and status 500 with an internal server error, each
/// around the text of the response body; it accepts every other status,
/// with the payload of the operation.
pub proof fn lemma_account_failures(operation: Operation, status: u16, message: String)
    requires
        operation.is_account(),
    ensures
        operation.verdict_for(401) == Verdict::Reject(ErrorKind::Authentication),
        operation.failure(401, message) == Some(Error::Authentication(message)),
        operation.verdict_for(500) == Verdict::Reject(ErrorKind::InternalServerError),
        operation.failure(500, message) == Some(Error::InternalServerError(message)),
        status != 401 && status != 500 ==> operation.verdict_for(status) == Verdict::Accept(
            operation.payload(),
        ),
{
}

/// Every operation of the storage API answers status 401 with an
/// authentication error. A download answers status 404 with a not-found
/// error; upload, delete and list answer status 400 with a bad-request
/// error. Each error is made around the text of the response body, and
/// every other status is accepted.
pub proof fn lemma_storage_failures(operation: Operation, status: u16, message: String)
    requires
        !operation.is_account(),
    ensures
        operation.failure(401, message) == Some(Error::Authentication(message)),
        operation == Operation::Download ==> operation.failure(404, message) == Some(
            Error::NotFound(message),
        ),
        operation != Operation::Download ==> operation.failure(400, message) == Some(
            Error::BadRequest(message),
        ),
        status != 401 && status != (if operation == Operation::Download {
            404u16
        } else {
            400u16
        }) ==> operation.verdict_for(status) == Verdict::Accept(operation.payload()),
{
}

/// One HTTP request, ready to be handed to a transport.
#[derive(Debug, Clone, PartialEq, Eq)]
pub struct Request {
    /// The operation that the request belongs to
    pub operation: Operation,
    /// The HTTP method
    pub method: Method,
    /// The absolute URL, query string included
    pub url: String,
    /// The headers of this request, beside those that the client sends
    /// with every request
    pub headers: Vec<Pair>,
    /// The body, if the request has one
    pub body: Option<Bytes>,
}

/// A request as the contracts speak of it.
pub ghost struct RequestView {
    /// The operation that the request belongs to
    pub operation: Operation,
    /// The HTTP method
    pub method: Method,
    /// The absolute URL, query string included
    pub url: Seq<char>,
    /// The headers of this request, as names and values
    pub headers: Seq<(Seq<char>, Seq<char>)>,
    /// The body, if the request has one
    pub body: Option<Bytes>,
}

impl View for Request {
    type V = RequestView;

    open spec fn view(&self) -> RequestView {
        RequestView {
            operation: self.operation,
            method: self.method,
            url: self.url@,
            headers: pair_views(self.headers@),
            body: self.body,
        }
    }
}

} // verus!
