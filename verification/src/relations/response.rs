//! The response of the endpoint: its fields, its HTTP form, and how an HTTP
//! response is read as a response or as an error of the server.

use vstd::prelude::*;
use crate::encoding::pairs_view;
use crate::endpoint::{
    is_success,
    is_success_status,
    server_error_from_response,
    IncomingResponse,
    OutgoingResponse,
};
use crate::error::{DeserializationError, FromHttpResponseError, IntoHttpError, ServerError};
use crate::incoming::{find_first, first_of};
use crate::json::{
    all_json,
    array_text,
    is_json,
    json_array,
    json_object,
    json_optional_string,
    json_quoted,
    object_text,
    parse_array,
    parse_object,
    parse_optional_string,
    quote,
    strings_view,
    write_array,
    write_object,
};
use crate::matrix_error::{json_headers, make_json_headers, MatrixError};
use crate::message::{opt_view, HttpResponse, HttpResponseView};

verus! {

/// The answer of the endpoint.
#[derive(Debug, PartialEq, Eq)]
pub struct Response {
    /// The events that relate to the parent event, each as the text of its
    /// JSON form. Empty where no event relates to the parent.
    pub chunk: Vec<String>,
    /// A pagination token; `None` where there are no more results.
    pub next_batch: Option<String>,
    /// A pagination token; `None` where this is the first batch.
    pub prev_batch: Option<String>,
}

/// What a [`Response`] holds, as mathematical values.
pub struct ResponseView {
    pub chunk: Seq<Seq<char>>,
    pub next_batch: Option<Seq<char>>,
    pub prev_batch: Option<Seq<char>>,
}

impl View for Response {
    type V = ResponseView;

    open spec fn view(&self) -> ResponseView {
        ResponseView {
            chunk: strings_view(self.chunk@),
            next_batch: opt_view(self.next_batch),
            prev_batch: opt_view(self.prev_batch),
        }
    }
}

/// What reading an HTTP response as a [`Response`] comes to.
pub enum ResponseOutcome {
    /// The server answered with success and the body was read.
    Read(ResponseView),
    /// The server answered with success and the body could not be read.
    Unreadable(DeserializationError),
    /// The server answered with an error whose body is JSON.
    KnownError { status: u16, body: Seq<u8> },
    /// The server answered with an error whose body is not JSON: the status
    /// code and the raw body are kept.
    UnknownError { status: u16, body: Seq<u8> },
}

/// The member of a token, none where the token is absent.
pub open spec fn token_member(name: Seq<char>, token: Option<Seq<char>>) -> Seq<
    (Seq<char>, Seq<char>),
> {
    match token {
        Some(token) => seq![(name, json_quoted(token))],
        None => Seq::empty(),
    }
}

/// The members of the body of a response: the events as an array under
/// `chunk`, then each token that is present under its name.
pub open spec fn response_members(response: ResponseView) -> Seq<(Seq<char>, Seq<char>)> {
    seq![("chunk"@, array_text(response.chunk))] + token_member(
        "next_batch"@,
        response.next_batch,
    ) + token_member("prev_batch"@, response.prev_batch)
}

/// The text of the body of a response: the JSON object of its members.
pub open spec fn response_text(response: ResponseView) -> Seq<char> {
    object_text(response_members(response))
}

/// The HTTP form of a response: status 200, the JSON content type and the
/// body; the error `Body` where an event is not JSON.
pub open spec fn outgoing_response(response: ResponseView) -> Result<
    HttpResponseView,
    IntoHttpError,
> {
    if !all_json(response.chunk) {
        Err(IntoHttpError::Body)
    } else {
        Ok(
            HttpResponseView {
                status: 200,
                headers: json_headers(),
                body: vstd::utf8::encode_utf8(response_text(response)),
            },
        )
    }
}

/// The token that an object holds under `name`: absent where the object
/// has no such member or the member is `null`; an error where the member is
/// anything but a string.
pub open spec fn token_of(members: Seq<(Seq<char>, Seq<char>)>, name: Seq<char>) -> Result<
    Option<Seq<char>>,
    DeserializationError,
> {
    match first_of(members, name) {
        None => Ok(None),
        Some(text) => match json_optional_string(text) {
            Some(token) => Ok(token),
            None => Err(DeserializationError::Json),
        },
    }
}

/// The response that the members of an object stand for: the member
/// `chunk` is an array; `next_batch` and `prev_batch` are optional strings;
/// other members are ignored.
pub open spec fn response_of_members(members: Seq<(Seq<char>, Seq<char>)>) -> Result<
    ResponseView,
    DeserializationError,
> {
    match first_of(members, "chunk"@) {
        None => Err(DeserializationError::Json),
        Some(text) => match json_array(text) {
            None => Err(DeserializationError::Json),
            Some(chunk) => match token_of(members, "next_batch"@) {
                Err(e) => Err(e),
                Ok(next_batch) => match token_of(members, "prev_batch"@) {
                    Err(e) => Err(e),
                    Ok(prev_batch) => Ok(
                        ResponseView {
                            chunk: chunk,
                            next_batch: next_batch,
                            prev_batch: prev_batch,
                        },
                    ),
                },
            },
        },
    }
}

/// The response that a body stands for: the body is a JSON object whose
/// members stand for a response.
pub open spec fn response_of_body(body: Seq<u8>) -> Result<ResponseView, DeserializationError> {
    match json_object(body) {
        None => Err(DeserializationError::Json),
        Some(members) => response_of_members(members),
    }
}

/// What reading an HTTP response comes to: with a status of success the
/// response that the body stands for; with any other status an error of
/// the server, known where the body is JSON and unknown, with status code
/// and raw body, where it is not.
pub open spec fn incoming_response(response: HttpResponseView) -> ResponseOutcome {
    if is_success_status(response.status) {
        match response_of_body(response.body) {
            Ok(read) => ResponseOutcome::Read(read),
            Err(e) => ResponseOutcome::Unreadable(e),
        }
    } else if is_json(response.body) {
        ResponseOutcome::KnownError { status: response.status, body: response.body }
    } else {
        ResponseOutcome::UnknownError { status: response.status, body: response.body }
    }
}

/// The outcome that the result of a conversion stands for.
pub open spec fn outcome_of(r: Result<Response, FromHttpResponseError<MatrixError>>)
    -> ResponseOutcome {
    match r {
        Ok(response) => ResponseOutcome::Read(response@),
        Err(FromHttpResponseError::Deserialization(e)) => ResponseOutcome::Unreadable(e),
        Err(FromHttpResponseError::Server(ServerError::Known(error))) => ResponseOutcome::KnownError {
            status: error.status_code,
            body: error.body@,
        },
        Err(FromHttpResponseError::Server(ServerError::Unknown { status, body })) =>
            ResponseOutcome::UnknownError { status: status, body: body@ },
    }
}

/// The view of a conversion's outcome.
pub open spec fn response_result_view(r: Result<HttpResponse, IntoHttpError>) -> Result<
    HttpResponseView,
    IntoHttpError,
> {
    match r {
        Ok(response) => Ok(response@),
        Err(e) => Err(e),
    }
}

/// The view of a reading's outcome.
pub open spec fn body_result_view(r: Result<Response, DeserializationError>) -> Result<
    ResponseView,
    DeserializationError,
> {
    match r {
        Ok(response) => Ok(response@),
        Err(e) => Err(e),
    }
}

/// Reads the token that an object holds under `name`.
fn read_token(members: &Vec<(String, String)>, name: &str) -> (r: Result<
    Option<String>,
    DeserializationError,
>)
    ensures
        match r {
            Ok(token) => token_of(pairs_view(members@), name@) == Ok::<
                Option<Seq<char>>,
                DeserializationError,
            >(opt_view(token)),
            Err(e) => token_of(pairs_view(members@), name@) == Err::<
                Option<Seq<char>>,
                DeserializationError,
            >(e),
        },
{
    match find_first(members, name) {
        None => Ok(None),
        Some(text) => match parse_optional_string(text) {
            Some(token) => Ok(token),
            None => Err(DeserializationError::Json),
        },
    }
}

impl Response {
    /// Creates a new `Response` with the given chunk.
    pub fn new(chunk: Vec<String>) -> (r: Self)
        ensures
            r.chunk == chunk,
            r.next_batch is None,
            r.prev_batch is None,
    {
        Response { chunk, next_batch: None, prev_batch: None }
    }

    /// Reads a response from the bytes of a body.
    pub fn from_body(body: &[u8]) -> (r: Result<Response, DeserializationError>)
        ensures
            body_result_view(r) == response_of_body(body@),
    {
        match parse_object(body) {
            Some(members) => Response::from_members(&members),
            None => Err(DeserializationError::Json),
        }
    }

    /// Reads a response from the members of a JSON object, each given with
    /// the text of its value.
    pub fn from_members(members: &Vec<(String, String)>) -> (r: Result<
        Response,
        DeserializationError,
    >)
        ensures
            body_result_view(r) == response_of_members(pairs_view(members@)),
    {
        let chunk = match find_first(members, "chunk") {
            Some(text) => match parse_array(text) {
                Some(chunk) => chunk,
                None => {
                    return Err(DeserializationError::Json);
                },
            },
            None => {
                return Err(DeserializationError::Json);
            },
        };
        let next_batch = match read_token(members, "next_batch") {
            Ok(token) => token,
            Err(e) => {
                return Err(e);
            },
        };
        let prev_batch = match read_token(members, "prev_batch") {
            Ok(token) => token,
            Err(e) => {
                return Err(e);
            },
        };
        Ok(Response { chunk, next_batch, prev_batch })
    }
}

impl OutgoingResponse for Response {
    /// Tries to convert this response into an HTTP response.
    fn try_into_http_response(self) -> (r: Result<HttpResponse, IntoHttpError>)
        ensures
            response_result_view(r) == outgoing_response(self@),
    {
        let chunk = match write_array(&self.chunk) {
            Some(chunk) => chunk,
            None => {
                return Err(IntoHttpError::Body);
            },
        };
        let mut members: Vec<(String, String)> = Vec::new();
        members.push((String::from_str("chunk"), chunk));
        match &self.next_batch {
            Some(token) => {
                members.push((String::from_str("next_batch"), quote(token.as_str())));
            },
            None => {},
        }
        match &self.prev_batch {
            Some(token) => {
                members.push((String::from_str("prev_batch"), quote(token.as_str())));
            },
            None => {},
        }
        assert(pairs_view(members@) =~= response_members(self@));
        let text = write_object(&members);
        let body = text.as_str().as_bytes_vec();
        Ok(HttpResponse { status: 200, headers: make_json_headers(), body })
    }
}

impl IncomingResponse for Response {
    type EndpointError = MatrixError;

    /// Tries to convert the given HTTP response into this response type.
    ///
    /// An answer whose status does not report success is never read as a
    /// response: it is an error of the server, and where its body is not
    /// JSON, its status code and raw body are handed back as they came.
    fn try_from_http_response(response: HttpResponse) -> (r: Result<
        Self,
        FromHttpResponseError<MatrixError>,
    >)
        ensures
            outcome_of(r) == incoming_response(response@),
            !is_success_status(response.status) && !is_json(response.body@) ==> r == Err::<
                Self,
                FromHttpResponseError<MatrixError>,
            >(
                FromHttpResponseError::Server(
                    ServerError::Unknown { status: response.status, body: response.body },
                ),
            ),
    {
        if is_success(response.status) {
            match Response::from_body(response.body.as_slice()) {
                Ok(read) => Ok(read),
                Err(e) => Err(FromHttpResponseError::Deserialization(e)),
            }
        } else {
            Err(server_error_from_response::<MatrixError>(response))
        }
    }
}

} // verus!
