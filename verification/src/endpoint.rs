//! The conversions that the types of an endpoint offer, the classification
//! of a server's answers, and the identity assertion of application
//! services.

use vstd::prelude::*;
use crate::auth::SendAccessToken;
use crate::encoding::{form_encode, form_encoded};
use crate::error::{
    DeserializationError,
    FromHttpRequestError,
    FromHttpResponseError,
    IntoHttpError,
    ServerError,
};
use crate::identifiers::UserId;
use crate::message::{
    replace_target,
    split_uri,
    uri_target,
    uri_with_target,
    HttpRequest,
    HttpRequestView,
    HttpResponse,
    UriTarget,
    UriTargetView,
};
use crate::metadata::Metadata;
use crate::outgoing::request_result_view;
use crate::text::push_char;
use crate::version::MatrixVersion;

verus! {

/// A response type for a Matrix API endpoint, used for sending responses.
pub trait OutgoingResponse {
    /// Tries to convert this response into an HTTP response.
    fn try_into_http_response(self) -> Result<HttpResponse, IntoHttpError>;
}

/// An error type that an endpoint's error answers are read as.
pub trait EndpointError: OutgoingResponse + Sized {
    /// Tries to read an error answer of the server.
    fn try_from_http_response(response: &HttpResponse) -> Result<Self, DeserializationError>;
}

/// A response type for a Matrix API endpoint, used for receiving responses.
pub trait IncomingResponse: Sized {
    /// A type capturing the expected error conditions the server can return.
    type EndpointError: EndpointError;

    /// Tries to convert the given HTTP response into this response type.
    fn try_from_http_response(response: HttpResponse) -> Result<
        Self,
        FromHttpResponseError<Self::EndpointError>,
    >;
}

/// A request type for a Matrix API endpoint, used for sending requests.
pub trait OutgoingRequest: Sized {
    /// A type capturing the expected error conditions the server can return.
    type EndpointError: EndpointError;

    /// Response type returned when the request is successful.
    type IncomingResponse: IncomingResponse<EndpointError = Self::EndpointError>;

    /// Metadata about the endpoint.
    fn metadata() -> Metadata;

    /// Tries to convert this request into an HTTP request.
    ///
    /// The endpoint's path is appended to `base_url`, whose one trailing
    /// slash is ignored.
    fn try_into_http_request(
        self,
        base_url: &str,
        access_token: SendAccessToken<'_>,
        considering_versions: &[MatrixVersion],
    ) -> Result<HttpRequest, IntoHttpError>;
}

/// A request type for a Matrix API endpoint, used for receiving requests.
pub trait IncomingRequest: Sized {
    /// A type capturing the error conditions that can be returned in the
    /// response.
    type EndpointError: EndpointError;

    /// Response type to return when the request is successful.
    type OutgoingResponse: OutgoingResponse;

    /// Metadata about the endpoint.
    fn metadata() -> Metadata;

    /// Tries to turn the given HTTP request into this request type, together
    /// with the path arguments, which are percent-decoded and in the order
    /// of the path's placeholders.
    fn try_from_http_request(request: HttpRequest, path_args: &[&str]) -> Result<
        Self,
        FromHttpRequestError,
    >;
}

/// Marker trait for requests that don't require authentication, for the
/// client side.
pub trait OutgoingNonAuthRequest: OutgoingRequest {

}

/// Marker trait for requests that don't require authentication, for the
/// server side.
pub trait IncomingNonAuthRequest: IncomingRequest {

}

/// Whether a status code reports success: it is one of 200 to 299.
pub open spec fn is_success_status(status: u16) -> bool {
    200 <= status && status < 300
}

/// Checks whether a status code reports success.
pub fn is_success(status: u16) -> (r: bool)
    ensures
        r == is_success_status(status),
{
    200 <= status && status < 300
}

/// The error that an error answer stands for, given what reading its body
/// as the endpoint's error type gave: the error read, or the status code and
/// raw body where reading failed.
pub open spec fn server_error_of<E>(
    response: HttpResponse,
    parsed: Result<E, DeserializationError>,
) -> FromHttpResponseError<E> {
    match parsed {
        Ok(error) => FromHttpResponseError::Server(ServerError::Known(error)),
        Err(_) => FromHttpResponseError::Server(
            ServerError::Unknown { status: response.status, body: response.body },
        ),
    }
}

/// Classifies an error answer, given what reading its body gave.
///
/// Where reading failed, the answer is kept as an unknown server error with
/// its status code and raw body.
pub fn classify_server_error<E>(
    response: HttpResponse,
    parsed: Result<E, DeserializationError>,
) -> (r: FromHttpResponseError<E>)
    ensures
        r == server_error_of(response, parsed),
{
    match parsed {
        Ok(error) => FromHttpResponseError::Server(ServerError::Known(error)),
        Err(_) => FromHttpResponseError::Server(
            ServerError::Unknown { status: response.status, body: response.body },
        ),
    }
}

/// Reads an error answer of the server as the error type `E`.
///
/// Whatever reading the body gives, the result is a server error: the error
/// read, or an unknown server error that carries the status code and raw
/// body of the answer.
pub fn server_error_from_response<E: EndpointError>(response: HttpResponse) -> (r:
    FromHttpResponseError<E>)
    ensures
        exists|parsed: Result<E, DeserializationError>|
            call_ensures(E::try_from_http_response, (&response,), parsed) && r == server_error_of(
                response,
                parsed,
            ),
        r is Server,
{
    let parsed = E::try_from_http_response(&response);
    classify_server_error(response, parsed)
}

/// The query string that asserts the identity `user_id`.
pub open spec fn user_id_query(user_id: Seq<char>) -> Seq<char> {
    form_encoded(seq![("user_id"@, user_id)])
}

/// The path and query of a request with the identity `user_id` appended:
/// after `&` where there is a query already, after `?` where there is none,
/// and as the query of the path `/` where the address has no path.
pub open spec fn target_with_user_id(target: UriTargetView, user_id: Seq<char>) -> Seq<char> {
    match target.path_and_query {
        Some(path_and_query) => match target.query {
            Some(_) => path_and_query + seq!['&'] + user_id_query(user_id),
            None => path_and_query + seq!['?'] + user_id_query(user_id),
        },
        None => seq!['/', '?'] + user_id_query(user_id),
    }
}

/// A request with the identity `user_id` appended to its query, or the
/// error `Url` where the address cannot be taken apart or put together.
pub open spec fn request_with_user_id(request: HttpRequestView, user_id: Seq<char>) -> Result<
    HttpRequestView,
    IntoHttpError,
> {
    match uri_target(request.uri) {
        None => Err(IntoHttpError::Url),
        Some(target) => match uri_with_target(
            request.uri,
            target_with_user_id(target, user_id),
        ) {
            None => Err(IntoHttpError::Url),
            Some(uri) => Ok(
                HttpRequestView {
                    method: request.method,
                    uri: uri,
                    headers: request.headers,
                    body: request.body,
                },
            ),
        },
    }
}

/// What asserting an identity makes of the outcome of a conversion: an
/// error stays, a request gets the identity appended.
pub open spec fn result_with_user_id(
    made: Result<HttpRequestView, IntoHttpError>,
    user_id: Seq<char>,
) -> Result<HttpRequestView, IntoHttpError> {
    match made {
        Ok(request) => request_with_user_id(request, user_id),
        Err(e) => Err(e),
    }
}

/// Appends the query parameter `user_id` to the path and query of an
/// address.
pub fn append_user_id(target: UriTarget, user_id: &UserId) -> (r: String)
    ensures
        r@ == target_with_user_id(target@, user_id@),
{
    let mut pairs: Vec<(String, String)> = Vec::new();
    pairs.push((String::from_str("user_id"), String::from_str(user_id.as_str())));
    assert(crate::encoding::pairs_view(pairs@) =~= seq![("user_id"@, user_id@)]);
    let query = form_encode(&pairs);
    let mut path_and_query = match target.path_and_query {
        Some(path_and_query) => {
            let mut path_and_query = path_and_query;
            if target.query.is_some() {
                push_char(&mut path_and_query, '&');
            } else {
                push_char(&mut path_and_query, '?');
            }
            path_and_query
        },
        None => {
            let mut path_and_query = String::new();
            push_char(&mut path_and_query, '/');
            push_char(&mut path_and_query, '?');
            path_and_query
        },
    };
    path_and_query.append(query.as_str());
    assert(path_and_query@ =~= target_with_user_id(target@, user_id@));
    path_and_query
}

/// Appends the query parameter `user_id` to the address of a request, to
/// assert the identity of a virtual user of an application service.
pub fn add_user_id(request: HttpRequest, user_id: &UserId) -> (r: Result<
    HttpRequest,
    IntoHttpError,
>)
    ensures
        request_result_view(r) == request_with_user_id(request@, user_id@),
{
    let target = match split_uri(request.uri.as_str()) {
        Some(target) => target,
        None => {
            return Err(IntoHttpError::Url);
        },
    };
    let path_and_query = append_user_id(target, user_id);
    let HttpRequest { method, uri, headers, body } = request;
    match replace_target(uri.as_str(), path_and_query.as_str()) {
        Some(uri) => Ok(HttpRequest { method, uri, headers, body }),
        None => Err(IntoHttpError::Url),
    }
}

/// An extension to `OutgoingRequest` for application services.
pub trait OutgoingRequestAppserviceExt: OutgoingRequest {
    /// Tries to convert this request into an HTTP request and appends a
    /// virtual `user_id` to assert the identity of a user of the application
    /// service.
    fn try_into_http_request_with_user_id(
        self,
        base_url: &str,
        access_token: SendAccessToken<'_>,
        considering_versions: &[MatrixVersion],
        user_id: &UserId,
    ) -> (r: Result<HttpRequest, IntoHttpError>)
        ensures
            exists|made: Result<HttpRequest, IntoHttpError>|
                call_ensures(
                    Self::try_into_http_request,
                    (self, base_url, access_token, considering_versions),
                    made,
                ) && request_result_view(r) == result_with_user_id(
                    request_result_view(made),
                    user_id@,
                ),
    {
        let made = self.try_into_http_request(base_url, access_token, considering_versions);
        let ghost witness = made;
        let r = match made {
            Ok(request) => add_user_id(request, user_id),
            Err(e) => Err(e),
        };
        assert(request_result_view(r) == result_with_user_id(
            request_result_view(witness),
            user_id@,
        ));
        r
    }
}

impl<T: OutgoingRequest> OutgoingRequestAppserviceExt for T {

}

} // verus!
