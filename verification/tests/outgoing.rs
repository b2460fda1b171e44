use ruma_api::auth::{AuthScheme, SendAccessToken};
use ruma_api::error::IntoHttpError;
use ruma_api::message::{HttpRequest, Method};
use ruma_api::metadata::{Metadata, PathCandidate};
use ruma_api::outgoing::{build_http_request, check_headers, make_url, trim_base, RequestParts};
use ruma_api::version::MatrixVersion::{V1_0, V1_1, V1_2};

fn endpoint(authentication: AuthScheme) -> Metadata {
    Metadata {
        description: "Does something.",
        method: Method::Put,
        name: "some_endpoint",
        rate_limited: false,
        authentication,
        added: Some(V1_1),
        deprecated: None,
        removed: None,
        path_candidates: vec![
            PathCandidate { path: "/_matrix/v3/some/:baz", added: Some(V1_1) },
            PathCandidate { path: "/_matrix/unstable/some/:baz", added: None },
        ],
    }
}

fn pair(a: &str, b: &str) -> (String, String) {
    (a.to_string(), b.to_string())
}

fn parts<'a>() -> RequestParts<'a> {
    RequestParts {
        path_args: vec!["b/z"],
        query: vec![pair("bar", "1 2&3"), pair("ü", "*-._")],
        headers: vec![pair("content-type", "application/json")],
        body: b"{\"foo\":1}".to_vec(),
    }
}

#[test]
fn request_is_assembled_from_its_pieces() {
    let r = build_http_request(
        &endpoint(AuthScheme::AccessToken),
        parts(),
        "https://example.org/",
        SendAccessToken::IfRequired("secret"),
        &[V1_2],
    );
    assert_eq!(
        r,
        Ok(HttpRequest {
            method: Method::Put,
            uri: "https://example.org/_matrix/v3/some/b%2Fz?bar=1+2%263&%C3%BC=*-._".to_string(),
            headers: vec![
                pair("content-type", "application/json"),
                pair("authorization", "Bearer secret"),
            ],
            body: b"{\"foo\":1}".to_vec(),
        })
    );
}

#[test]
fn unstable_path_is_used_for_old_versions() {
    let r = build_http_request(
        &endpoint(AuthScheme::NoAuthentication),
        RequestParts { path_args: vec!["x"], query: vec![], headers: vec![], body: vec![] },
        "https://example.org",
        SendAccessToken::Never,
        &[V1_0],
    )
    .unwrap();
    assert_eq!(r.uri, "https://example.org/_matrix/unstable/some/x");
    assert!(r.headers.is_empty());
    assert!(r.body.is_empty());
}

#[test]
fn only_one_trailing_slash_of_the_base_is_ignored() {
    assert_eq!(trim_base("https://example.org/"), "https://example.org");
    assert_eq!(trim_base("https://example.org"), "https://example.org");
    assert_eq!(trim_base("https://example.org//"), "https://example.org/");
    assert_eq!(trim_base("/"), "");
    assert_eq!(trim_base(""), "");
}

#[test]
fn token_in_query_for_query_only_endpoints() {
    let r = build_http_request(
        &endpoint(AuthScheme::QueryOnlyAccessToken),
        parts(),
        "https://example.org",
        SendAccessToken::Always("se cret"),
        &[V1_1],
    )
    .unwrap();
    assert_eq!(
        r.uri,
        "https://example.org/_matrix/v3/some/b%2Fz?bar=1+2%263&%C3%BC=*-._&access_token=se+cret"
    );
    assert_eq!(r.headers, vec![pair("content-type", "application/json")]);
}

#[test]
fn no_token_is_sent_without_authentication() {
    let r = build_http_request(
        &endpoint(AuthScheme::NoAuthentication),
        parts(),
        "https://example.org",
        SendAccessToken::Always("secret"),
        &[V1_1],
    )
    .unwrap();
    assert_eq!(r.headers, vec![pair("content-type", "application/json")]);
    assert!(!r.uri.contains("secret"));
}

#[test]
fn missing_token_is_reported() {
    for scheme in
        [AuthScheme::AccessToken, AuthScheme::ServerSignatures, AuthScheme::QueryOnlyAccessToken]
    {
        let r = build_http_request(
            &endpoint(scheme),
            parts(),
            "https://example.org",
            SendAccessToken::Never,
            &[V1_1],
        );
        assert_eq!(r, Err(IntoHttpError::NeedsAuthentication));
    }
    let open = build_http_request(
        &endpoint(AuthScheme::NoAuthentication),
        parts(),
        "https://example.org",
        SendAccessToken::Never,
        &[V1_1],
    );
    assert!(open.is_ok());
}

#[test]
fn missing_path_is_reported_before_a_missing_token() {
    let mut m = endpoint(AuthScheme::AccessToken);
    m.removed = Some(V1_2);
    let r = build_http_request(&m, parts(), "https://example.org", SendAccessToken::Never, &[V1_2]);
    assert_eq!(r, Err(IntoHttpError::NoMatchingPath));
}

#[test]
fn address_that_is_no_uri_is_reported() {
    let r = build_http_request(
        &endpoint(AuthScheme::AccessToken),
        parts(),
        "https://exam ple.org",
        SendAccessToken::Always("secret"),
        &[V1_1],
    );
    assert_eq!(r, Err(IntoHttpError::Url));
}

#[test]
fn header_value_that_cannot_be_sent_is_reported() {
    let r = build_http_request(
        &endpoint(AuthScheme::AccessToken),
        parts(),
        "https://example.org",
        SendAccessToken::Always("sec\nret"),
        &[V1_1],
    );
    assert_eq!(r, Err(IntoHttpError::Header));
    let mut p = parts();
    p.headers.push(pair("x-custom", "a\u{7f}b"));
    let r = build_http_request(
        &endpoint(AuthScheme::NoAuthentication),
        p,
        "https://example.org",
        SendAccessToken::Never,
        &[V1_1],
    );
    assert_eq!(r, Err(IntoHttpError::Header));
}

#[test]
fn header_values_may_hold_tabs_and_bytes_above_ascii() {
    assert!(check_headers(&vec![pair("a", "x\ty"), pair("b", "é"), pair("c", "")]));
    assert!(!check_headers(&vec![pair("a", "ok"), pair("b", "x\ry")]));
    assert!(!check_headers(&vec![pair("a", "\u{0}")]));
    assert!(check_headers(&vec![]));
}

#[test]
fn header_names_are_checked() {
    assert!(check_headers(&vec![pair("content-type", "x"), pair("X-Custom", "y")]));
    assert!(!check_headers(&vec![pair("", "x")]));
    assert!(!check_headers(&vec![pair("content type", "x")]));
    assert!(!check_headers(&vec![pair("a", "x"), pair("b:", "x")]));
    let mut p = parts();
    p.headers.push(pair("bad name", "value"));
    let r = build_http_request(
        &endpoint(AuthScheme::NoAuthentication),
        p,
        "https://example.org",
        SendAccessToken::Never,
        &[V1_1],
    );
    assert_eq!(r, Err(IntoHttpError::Header));
}

#[test]
fn url_is_base_path_and_query() {
    assert_eq!(
        make_url("https://example.org/", "/a/:b", &["x y"], &vec![pair("k", "v w")]),
        "https://example.org/a/x%20y?k=v+w"
    );
    assert_eq!(make_url("https://example.org", "/a/:b", &[], &vec![]), "https://example.org/a");
    assert_eq!(make_url("", "", &[], &vec![pair("", "")]), "?=");
}
