//! The error type of endpoints that define none of their own.

use vstd::prelude::*;
use crate::endpoint::{EndpointError, OutgoingResponse};
use crate::error::{DeserializationError, IntoHttpError};
use crate::json::{check_json, is_json};
use crate::message::{HttpResponse, HttpResponseView};

verus! {

/// An error answer of the server: the status code and the JSON body.
#[derive(Clone, Debug, PartialEq, Eq)]
pub struct MatrixError {
    /// The status code of the answer.
    pub status_code: u16,
    /// The body of the answer, one JSON value.
    pub body: Vec<u8>,
}

/// The headers of a message with a JSON body.
pub open spec fn json_headers() -> Seq<(Seq<char>, Seq<char>)> {
    seq![("content-type"@, "application/json"@)]
}

/// Makes the headers of a message with a JSON body.
pub fn make_json_headers() -> (r: Vec<(String, String)>)
    ensures
        crate::message::headers_view(r@) == json_headers(),
{
    let mut headers: Vec<(String, String)> = Vec::new();
    headers.push((String::from_str("content-type"), String::from_str("application/json")));
    assert(crate::message::headers_view(headers@) =~= json_headers());
    headers
}

/// What reading an answer as a [`MatrixError`] gives: the status code and
/// body of the answer where the body is JSON, no error value where it is
/// not.
pub open spec fn matrix_error_of(response: HttpResponseView) -> Option<(u16, Seq<u8>)> {
    if is_json(response.body) {
        Some((response.status, response.body))
    } else {
        None
    }
}

impl OutgoingResponse for MatrixError {
    /// Makes the answer that carries this error: its status code, the JSON
    /// content type and its body. Fails with `Body` where the body is not
    /// JSON.
    fn try_into_http_response(self) -> (r: Result<HttpResponse, IntoHttpError>)
        ensures
            match r {
                Ok(response) => is_json(self.body@) && response@ == (HttpResponseView {
                    status: self.status_code,
                    headers: json_headers(),
                    body: self.body@,
                }),
                Err(e) => !is_json(self.body@) && e == IntoHttpError::Body,
            },
    {
        if !check_json(self.body.as_slice()) {
            return Err(IntoHttpError::Body);
        }
        Ok(HttpResponse { status: self.status_code, headers: make_json_headers(), body: self.body })
    }
}

impl EndpointError for MatrixError {
    /// Reads an error answer: any answer with a JSON body is one.
    fn try_from_http_response(response: &HttpResponse) -> (r: Result<Self, DeserializationError>)
        ensures
            match r {
                Ok(error) => matrix_error_of(response@) == Some((error.status_code, error.body@)),
                Err(e) => matrix_error_of(response@) is None && e == DeserializationError::Json,
            },
    {
        if check_json(response.body.as_slice()) {
            let body = response.body.clone();
            assert(body@ =~= response.body@);
            Ok(MatrixError { status_code: response.status, body })
        } else {
            Err(DeserializationError::Json)
        }
    }
}

} // verus!
