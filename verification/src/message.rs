//! HTTP messages as plain values, and what the `http` crate decides about
//! them: which strings are URIs, how a URI splits, which strings are header
//! names and values.

use vstd::prelude::*;
use vstd::utf8::encode_utf8;

verus! {

/// The method of an HTTP request.
#[derive(Clone, Copy, Debug, PartialEq, Eq, Hash, Structural)]
pub enum Method {
    Get,
    Post,
    Put,
    Delete,
    Head,
    Options,
    Patch,
    Connect,
    Trace,
}

/// An HTTP request: method, address, headers in order, body.
#[derive(Clone, Debug, PartialEq, Eq)]
pub struct HttpRequest {
    pub method: Method,
    pub uri: String,
    pub headers: Vec<(String, String)>,
    pub body: Vec<u8>,
}

/// An HTTP response: status code, headers in order, body.
#[derive(Clone, Debug, PartialEq, Eq)]
pub struct HttpResponse {
    pub status: u16,
    pub headers: Vec<(String, String)>,
    pub body: Vec<u8>,
}

/// What an [`HttpRequest`] holds, as mathematical values.
pub struct HttpRequestView {
    pub method: Method,
    pub uri: Seq<char>,
    pub headers: Seq<(Seq<char>, Seq<char>)>,
    pub body: Seq<u8>,
}

/// What an [`HttpResponse`] holds, as mathematical values.
pub struct HttpResponseView {
    pub status: u16,
    pub headers: Seq<(Seq<char>, Seq<char>)>,
    pub body: Seq<u8>,
}

/// The part of a URI after its authority.
#[derive(Clone, Debug, PartialEq, Eq)]
pub struct UriTarget {
    /// Path and query as one string; `None` for a URI that is an authority
    /// alone.
    pub path_and_query: Option<String>,
    /// The query, without its `?`; `None` where the URI has none.
    pub query: Option<String>,
}

/// What a [`UriTarget`] holds, as mathematical values.
pub struct UriTargetView {
    pub path_and_query: Option<Seq<char>>,
    pub query: Option<Seq<char>>,
}

/// The characters of an optional string.
pub open spec fn opt_view(s: Option<String>) -> Option<Seq<char>> {
    match s {
        Some(s) => Some(s@),
        None => None,
    }
}

/// The pairs of strings as pairs of character sequences.
pub open spec fn headers_view(headers: Seq<(String, String)>) -> Seq<(Seq<char>, Seq<char>)> {
    Seq::new(headers.len(), |i: int| (headers[i].0@, headers[i].1@))
}

impl View for HttpRequest {
    type V = HttpRequestView;

    open spec fn view(&self) -> HttpRequestView {
        HttpRequestView {
            method: self.method,
            uri: self.uri@,
            headers: headers_view(self.headers@),
            body: self.body@,
        }
    }
}

impl View for HttpResponse {
    type V = HttpResponseView;

    open spec fn view(&self) -> HttpResponseView {
        HttpResponseView {
            status: self.status,
            headers: headers_view(self.headers@),
            body: self.body@,
        }
    }
}

impl View for UriTarget {
    type V = UriTargetView;

    open spec fn view(&self) -> UriTargetView {
        UriTargetView {
            path_and_query: opt_view(self.path_and_query),
            query: opt_view(self.query),
        }
    }
}

/// The target of `uri` as the `http` crate parses it; `None` where the crate
/// does not accept `uri` as a URI.
pub uninterp spec fn uri_target(uri: Seq<char>) -> Option<UriTargetView>;

/// The URI that the `http` crate assembles from the scheme and authority of
/// `uri` and the new target `path_and_query`; `None` where it refuses one of
/// them or their combination.
pub uninterp spec fn uri_with_target(uri: Seq<char>, path_and_query: Seq<char>) -> Option<
    Seq<char>,
>;

/// Whether the `http` crate accepts `name` as the name of a header.
pub uninterp spec fn is_header_name(name: Seq<char>) -> bool;

/// Whether a header value may hold the byte `b`: a tab, or anything from the
/// space upwards but the delete character.
pub open spec fn is_header_byte(b: u8) -> bool {
    b == 0x09 || (b >= 0x20 && b != 0x7f)
}

/// Whether `value` can be sent as a header value: each byte of its UTF-8
/// form is allowed.
pub open spec fn is_header_value(value: Seq<char>) -> bool {
    forall|i: int| 0 <= i < encode_utf8(value).len() ==> is_header_byte(#[trigger] encode_utf8(value)[i])
}

/// Whether `uri` is a URI.
pub open spec fn is_uri(uri: Seq<char>) -> bool {
    uri_target(uri) is Some
}

/// Parses a URI and hands out its target.
///
/// Calls `http::Uri::from_str`, then `Uri::into_parts` and
/// `PathAndQuery::query`. The contract only names the result: whether the
/// string is accepted and how it splits depend on nothing but the string.
#[verifier::external_body]
pub(crate) fn split_uri(uri: &str) -> (r: Option<UriTarget>)
    ensures
        match r {
            Some(t) => uri_target(uri@) == Some(t@),
            None => uri_target(uri@) is None,
        },
{
    let target = uri.parse::<http::Uri>().ok()?.into_parts().path_and_query;
    Some(
        UriTarget {
            path_and_query: target.as_ref().map(|t| t.to_string()),
            query: target.as_ref().and_then(|t| t.query()).map(|q| q.to_string()),
        },
    )
}

/// Replaces the path and query of a URI.
///
/// Calls `http::Uri::from_str` and `Uri::into_parts` on `uri`,
/// `http::uri::PathAndQuery::try_from` on `path_and_query` and
/// `http::Uri::from_parts` on the parts with the new target. The contract
/// only names the result: it depends on nothing but the two strings.
#[verifier::external_body]
pub(crate) fn replace_target(uri: &str, path_and_query: &str) -> (r: Option<String>)
    ensures
        opt_view(r) == uri_with_target(uri@, path_and_query@),
{
    let mut parts = uri.parse::<http::Uri>().ok()?.into_parts();
    parts.path_and_query = Some(http::uri::PathAndQuery::try_from(path_and_query).ok()?);
    http::Uri::from_parts(parts).ok().map(|u| u.to_string())
}

/// Checks that a string can be sent as the name of a header.
///
/// Calls `http::header::HeaderName::from_bytes`. The contract only names the
/// result: it depends on nothing but the string.
#[verifier::external_body]
pub(crate) fn check_header_name(name: &str) -> (r: bool)
    ensures
        r == is_header_name(name@),
{
    http::header::HeaderName::from_bytes(name.as_bytes()).is_ok()
}

/// Checks that a string can be sent as a header value.
///
/// Calls `http::HeaderValue::from_str`. The contract claims what its source
/// shows: the value is accepted exactly when each of its bytes is a tab, or
/// at least 32 and not 127.
#[verifier::external_body]
pub(crate) fn check_header_value(value: &str) -> (r: bool)
    ensures
        r == is_header_value(value@),
{
    http::HeaderValue::from_str(value).is_ok()
}

} // verus!
