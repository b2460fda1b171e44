use ruma_api::auth::SendAccessToken;
use ruma_api::endpoint::{
    add_user_id, classify_server_error, is_success, server_error_from_response, EndpointError,
    OutgoingRequestAppserviceExt, OutgoingResponse,
};
use ruma_api::error::{DeserializationError, FromHttpResponseError, IntoHttpError, ServerError};
use ruma_api::identifiers::{EventId, RoomId, UInt, UserId};
use ruma_api::matrix_error::{make_json_headers, MatrixError};
use ruma_api::message::{HttpRequest, HttpResponse, Method};
use ruma_api::relations::Request;
use ruma_api::version::MatrixVersion::V1_1;

fn pair(a: &str, b: &str) -> (String, String) {
    (a.to_string(), b.to_string())
}

fn request(uri: &str) -> HttpRequest {
    HttpRequest {
        method: Method::Post,
        uri: uri.to_string(),
        headers: vec![pair("content-type", "application/json")],
        body: b"{}".to_vec(),
    }
}

fn bot() -> UserId {
    UserId::parse("@bot 1:example.org").unwrap()
}

#[test]
fn success_is_the_range_of_two_hundred() {
    assert!(is_success(200));
    assert!(is_success(204));
    assert!(is_success(299));
    assert!(!is_success(199));
    assert!(!is_success(300));
    assert!(!is_success(304));
    assert!(!is_success(404));
    assert!(!is_success(0));
}

#[test]
fn user_id_is_appended_to_an_existing_query() {
    let r = add_user_id(request("https://example.org/path?x=1"), &bot()).unwrap();
    assert_eq!(r.uri, "https://example.org/path?x=1&user_id=%40bot+1%3Aexample.org");
    assert_eq!(r.method, Method::Post);
    assert_eq!(r.headers, vec![pair("content-type", "application/json")]);
    assert_eq!(r.body, b"{}".to_vec());
}

#[test]
fn user_id_starts_the_query_where_there_is_none() {
    let r = add_user_id(request("https://example.org/path"), &bot()).unwrap();
    assert_eq!(r.uri, "https://example.org/path?user_id=%40bot+1%3Aexample.org");
    let r = add_user_id(request("/path"), &bot()).unwrap();
    assert_eq!(r.uri, "/path?user_id=%40bot+1%3Aexample.org");
    let r = add_user_id(request("https://example.org"), &bot()).unwrap();
    assert_eq!(r.uri, "https://example.org/?user_id=%40bot+1%3Aexample.org");
}

#[test]
fn user_id_follows_an_empty_query() {
    let r = add_user_id(request("https://example.org/path?"), &bot()).unwrap();
    assert_eq!(r.uri, "https://example.org/path?&user_id=%40bot+1%3Aexample.org");
}

#[test]
fn user_id_cannot_be_added_to_what_is_no_uri_or_has_no_path() {
    assert_eq!(add_user_id(request("not a uri"), &bot()), Err(IntoHttpError::Url));
    assert_eq!(add_user_id(request(""), &bot()), Err(IntoHttpError::Url));
    assert_eq!(add_user_id(request("example.org:8448"), &bot()), Err(IntoHttpError::Url));
}

#[test]
fn request_with_user_id() {
    let room = RoomId::parse("!r:x").unwrap();
    let event = EventId::parse("$e").unwrap();
    let mut r = Request::new(&room, &event);
    r.limit = UInt::new(5);
    let http = r
        .try_into_http_request_with_user_id(
            "https://matrix.org",
            SendAccessToken::IfRequired("tok"),
            &[V1_1],
            &bot(),
        )
        .unwrap();
    assert_eq!(
        http.uri,
        "https://matrix.org/_matrix/client/unstable/rooms/%21r%3Ax/relations/%24e?limit=5&user_id=%40bot+1%3Aexample.org"
    );
    assert_eq!(http.headers[1], pair("authorization", "Bearer tok"));
    let plain = Request::new(&room, &event)
        .try_into_http_request_with_user_id(
            "https://matrix.org",
            SendAccessToken::IfRequired("tok"),
            &[],
            &bot(),
        )
        .unwrap();
    assert_eq!(
        plain.uri,
        "https://matrix.org/_matrix/client/unstable/rooms/%21r%3Ax/relations/%24e?user_id=%40bot+1%3Aexample.org"
    );
}

#[test]
fn request_with_user_id_keeps_the_error_of_the_conversion() {
    let room = RoomId::parse("!r:x").unwrap();
    let event = EventId::parse("$e").unwrap();
    let r = Request::new(&room, &event).try_into_http_request_with_user_id(
        "https://matrix.org",
        SendAccessToken::Never,
        &[V1_1],
        &bot(),
    );
    assert_eq!(r, Err(IntoHttpError::NeedsAuthentication));
}

#[test]
fn matrix_error_is_read_from_any_json_body() {
    let response =
        HttpResponse { status: 404, headers: vec![], body: b" {\"errcode\": \"M_NOT_FOUND\"} ".to_vec() };
    assert_eq!(
        MatrixError::try_from_http_response(&response),
        Ok(MatrixError { status_code: 404, body: response.body.clone() })
    );
    let text = HttpResponse { status: 404, headers: vec![], body: b"\"plain\"".to_vec() };
    assert!(MatrixError::try_from_http_response(&text).is_ok());
    let bad = HttpResponse { status: 404, headers: vec![], body: b"{\"errcode\"".to_vec() };
    assert_eq!(MatrixError::try_from_http_response(&bad), Err(DeserializationError::Json));
}

#[test]
fn matrix_error_becomes_a_response() {
    let e = MatrixError { status_code: 403, body: b"{\"errcode\":\"M_FORBIDDEN\"}".to_vec() };
    assert_eq!(
        e.try_into_http_response(),
        Ok(HttpResponse {
            status: 403,
            headers: vec![pair("content-type", "application/json")],
            body: b"{\"errcode\":\"M_FORBIDDEN\"}".to_vec(),
        })
    );
    let e = MatrixError { status_code: 403, body: b"oops".to_vec() };
    assert_eq!(e.try_into_http_response(), Err(IntoHttpError::Body));
    assert_eq!(make_json_headers(), vec![pair("content-type", "application/json")]);
}

#[test]
fn server_errors_are_classified() {
    let response = HttpResponse { status: 500, headers: vec![], body: b"<html>".to_vec() };
    let known: FromHttpResponseError<u8> = classify_server_error(
        HttpResponse { status: 500, headers: vec![], body: b"<html>".to_vec() },
        Ok(7),
    );
    assert_eq!(known, FromHttpResponseError::Server(ServerError::Known(7)));
    let unknown: FromHttpResponseError<u8> =
        classify_server_error(response, Err(DeserializationError::Json));
    assert_eq!(
        unknown,
        FromHttpResponseError::Server(ServerError::Unknown {
            status: 500,
            body: b"<html>".to_vec()
        })
    );
}

#[test]
fn server_error_from_response_falls_back() {
    let r: FromHttpResponseError<MatrixError> = server_error_from_response(HttpResponse {
        status: 429,
        headers: vec![],
        body: b"slow down".to_vec(),
    });
    assert_eq!(
        r,
        FromHttpResponseError::Server(ServerError::Unknown {
            status: 429,
            body: b"slow down".to_vec()
        })
    );
    let r: FromHttpResponseError<MatrixError> = server_error_from_response(HttpResponse {
        status: 429,
        headers: vec![],
        body: b"{\"errcode\":\"M_LIMIT_EXCEEDED\"}".to_vec(),
    });
    assert_eq!(
        r,
        FromHttpResponseError::Server(ServerError::Known(MatrixError {
            status_code: 429,
            body: b"{\"errcode\":\"M_LIMIT_EXCEEDED\"}".to_vec(),
        }))
    );
}
