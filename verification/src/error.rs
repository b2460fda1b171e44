//! Error types returned by the conversions.
//!
//! Every failure is a value handed back to the caller; no conversion gives a
//! partial result.

use vstd::prelude::*;

verus! {

/// A version token that names no known Matrix version.
#[derive(Clone, Copy, Debug, PartialEq, Eq, Structural)]
pub struct UnknownVersionError;

/// No path of the endpoint can be used with the versions the caller offers:
/// none matches them, or the endpoint was removed in all of them.
#[derive(Clone, Copy, Debug, PartialEq, Eq, Structural)]
pub struct NoMatchingPathError;

/// Why a request or response value could not be turned into an HTTP message.
#[derive(Clone, Copy, Debug, PartialEq, Eq, Structural)]
pub enum IntoHttpError {
    /// The endpoint requires an access token and the caller sends none.
    NeedsAuthentication,
    /// No path of the endpoint can be used with the versions offered.
    NoMatchingPath,
    /// A header has a name that is no header name, or a value that holds a
    /// byte that no header may carry.
    Header,
    /// The assembled address is not a URI.
    Url,
    /// The body could not be serialized.
    Body,
}

/// Why an HTTP request could not be read as a request value.
#[derive(Clone, Copy, Debug, PartialEq, Eq, Structural)]
pub enum FromHttpRequestError {
    /// The address of the request is not a URI.
    Uri,
    /// A path argument is missing, malformed, or one too many.
    PathArgument,
    /// The query string does not fit the query fields of the request.
    Query,
    /// A header is missing or malformed.
    Header,
    /// The body could not be deserialized.
    Body,
}

/// Why the bytes of a body or header could not be read as a value.
#[derive(Clone, Copy, Debug, PartialEq, Eq, Structural)]
pub enum DeserializationError {
    /// The body is not the expected JSON.
    Json,
    /// A header is missing or malformed.
    Header,
}

/// An error answer of the server.
#[derive(Clone, Debug, PartialEq, Eq)]
pub enum ServerError<E> {
    /// The body was read as the endpoint's error type.
    Known(E),
    /// The body could not be read as the endpoint's error type: the status
    /// code and the raw body are kept as they came.
    Unknown { status: u16, body: Vec<u8> },
}

/// Why an HTTP response could not be read as a response value.
#[derive(Clone, Debug, PartialEq, Eq)]
pub enum FromHttpResponseError<E> {
    /// The server answered with success, but the response could not be read.
    Deserialization(DeserializationError),
    /// The server answered with an error.
    Server(ServerError<E>),
}

} // verus!
