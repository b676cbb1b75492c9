//! Error types for this crate.

use reqwest::Error as TransportError;
use vstd::prelude::*;

verus! {

/// A transport-level failure reported by `reqwest`. Nothing inside it is
/// visible to the verifier; it is only carried through.
#[verifier::external_type_specification]
#[verifier::external_body]
pub struct ExTransportError(TransportError);

/// The reason why `url` refused a text. Nothing inside it is visible to the
/// verifier; it is only carried through.
#[verifier::external_type_specification]
#[verifier::external_body]
pub struct ExUrlParseError(url::ParseError);

/// Why a text did not come to a URL that a request may go to.
#[derive(Debug)]
pub enum UrlError {
    /// The URL parser refused the text, for the reason given
    Parser(url::ParseError),
    /// The path of an object resolved to a URL outside the storage zone
    OutsideZone,
}

/// Error type for this crate
#[derive(Debug)]
pub enum Error {
    /// The transport failed, or a response body could not be decoded
    Reqwest(TransportError),
    /// The API key cannot be sent as a header value: it holds a character
    /// outside ASCII, or a control character other than the tab
    InvalidHeader,
    /// URL Parse error: a text was no URL, or the path of an object left
    /// the storage zone
    ParseError(UrlError),
    /// Authentication error
    Authentication(String),
    /// Bad request error
    BadRequest(String),
    /// Not found error
    NotFound(String),
    /// Internal server error
    InternalServerError(String),
}

impl Error {
    /// Whether the error is a text that the URL parser refused.
    pub open spec fn is_parser_refusal(self) -> bool {
        self matches Error::ParseError(reason) && reason is Parser
    }

    /// Whether the error is a path that leaves the storage zone.
    pub open spec fn is_outside_zone(self) -> bool {
        self matches Error::ParseError(reason) && reason is OutsideZone
    }
}

/// The errors that are derived from a response status.
#[derive(Debug, Clone, Copy, PartialEq, Eq, Structural)]
pub enum ErrorKind {
    /// HTTP 401
    Authentication,
    /// HTTP 400
    BadRequest,
    /// HTTP 404
    NotFound,
    /// HTTP 500
    InternalServerError,
}

impl ErrorKind {
    /// The error of this kind that carries `message`.
    pub open spec fn error(self, message: String) -> Error {
        match self {
            ErrorKind::Authentication => Error::Authentication(message),
            ErrorKind::BadRequest => Error::BadRequest(message),
            ErrorKind::NotFound => Error::NotFound(message),
            ErrorKind::InternalServerError => Error::InternalServerError(message),
        }
    }

    /// Builds the error of this kind around the text of the response body.
    pub fn into_error(self, message: String) -> (e: Error)
        ensures
            e == self.error(message),
    {
        match self {
            ErrorKind::Authentication => Error::Authentication(message),
            ErrorKind::BadRequest => Error::BadRequest(message),
            ErrorKind::NotFound => Error::NotFound(message),
            ErrorKind::InternalServerError => Error::InternalServerError(message),
        }
    }
}

} // verus!
