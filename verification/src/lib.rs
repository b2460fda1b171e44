//! Types and conversions for versioned Matrix API endpoints.
//!
//! An endpoint is described by a [`Metadata`] record: its method, its
//! authentication scheme and its paths, the most stable first. For the
//! versions that a caller offers, [`select_path`] picks the path. A request
//! type turns itself into an [`HttpRequest`] and is read back from one; a
//! response type does the same with an [`HttpResponse`], and an error answer
//! of the server is kept even where its body cannot be read.
//!
//! Every conversion is a pure function with a contract over the views of its
//! arguments. HTTP messages are plain values; what the `http`,
//! `percent_encoding`, `form_urlencoded` and `serde_json` crates decide
//! about strings and bytes is asked of them in `message`, `encoding` and
//! `json`.

pub mod text;
pub mod error;
pub mod version;
pub mod auth;
pub mod encoding;
pub mod message;
pub mod json;
pub mod metadata;
pub mod path;
pub mod identifiers;
pub mod outgoing;
pub mod incoming;
pub mod endpoint;
pub mod matrix_error;
pub mod relations;

pub use auth::{AuthScheme, SendAccessToken};
pub use endpoint::{
    EndpointError,
    IncomingNonAuthRequest,
    IncomingRequest,
    IncomingResponse,
    OutgoingNonAuthRequest,
    OutgoingRequest,
    OutgoingRequestAppserviceExt,
    OutgoingResponse,
};
pub use matrix_error::MatrixError;
pub use message::{HttpRequest, HttpResponse, Method};
pub use metadata::{Metadata, PathCandidate};
pub use path::select_path;
pub use version::MatrixVersion;
