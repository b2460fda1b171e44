//! Turning the pieces of a request into an HTTP request.
//!
//! An endpoint's request type gives path arguments, query pairs, headers and
//! a body. [`build_http_request`] resolves the path for the versions offered,
//! fills it in, appends the query, and attaches the access token as the
//! endpoint's authentication scheme asks.

use vstd::prelude::*;
use crate::auth::{credential_for, credential_of, Credential, SendAccessToken};
use crate::encoding::{form_encode, form_encoded, pairs_view};
use crate::error::IntoHttpError;
use crate::message::{
    check_header_name,
    check_header_value,
    headers_view,
    is_header_name,
    is_header_value,
    is_uri,
    split_uri,
    HttpRequest,
    HttpRequestView,
};
use crate::metadata::{Metadata, MetadataView};
use crate::path::{render_path, rendered_path, select_path, selected_path, strs_view};
use crate::text::push_char;
use crate::version::MatrixVersion;

verus! {

/// What the fields of a request value give to its HTTP form.
#[derive(Debug)]
pub struct RequestParts<'a> {
    /// The path arguments, in the order of the template's placeholders.
    pub path_args: Vec<&'a str>,
    /// The pairs of the query string, in order; absent fields are left out.
    pub query: Vec<(String, String)>,
    /// The headers, in order.
    pub headers: Vec<(String, String)>,
    /// The serialized body.
    pub body: Vec<u8>,
}

/// What a [`RequestParts`] holds, as mathematical values.
pub struct RequestPartsView {
    pub path_args: Seq<Seq<char>>,
    pub query: Seq<(Seq<char>, Seq<char>)>,
    pub headers: Seq<(Seq<char>, Seq<char>)>,
    pub body: Seq<u8>,
}

impl<'a> View for RequestParts<'a> {
    type V = RequestPartsView;

    open spec fn view(&self) -> RequestPartsView {
        RequestPartsView {
            path_args: strs_view(self.path_args@),
            query: pairs_view(self.query@),
            headers: headers_view(self.headers@),
            body: self.body@,
        }
    }
}

/// A base address without its one trailing slash, if it has one.
pub open spec fn trimmed_base(base_url: Seq<char>) -> Seq<char> {
    if base_url.len() > 0 && base_url.last() == '/' {
        base_url.drop_last()
    } else {
        base_url
    }
}

/// The query pairs that carry a credential.
pub open spec fn credential_query(credential: Credential<'_>) -> Seq<(Seq<char>, Seq<char>)> {
    match credential {
        Credential::Query(token) => seq![("access_token"@, token@)],
        _ => Seq::empty(),
    }
}

/// The headers that carry a credential.
pub open spec fn credential_headers(credential: Credential<'_>) -> Seq<(Seq<char>, Seq<char>)> {
    match credential {
        Credential::Bearer(token) => seq![("authorization"@, "Bearer "@ + token@)],
        _ => Seq::empty(),
    }
}

/// The address of a request: the base without its trailing slash, the path
/// with its arguments, and, where there are query pairs, `?` and the query.
pub open spec fn request_url(
    base_url: Seq<char>,
    template: Seq<char>,
    path_args: Seq<Seq<char>>,
    query: Seq<(Seq<char>, Seq<char>)>,
) -> Seq<char> {
    trimmed_base(base_url) + rendered_path(template, path_args) + if query.len() == 0 {
        Seq::empty()
    } else {
        seq!['?'] + form_encoded(query)
    }
}

/// Whether a header can be sent: its name is a header name and its value a
/// header value.
pub open spec fn is_header(header: (Seq<char>, Seq<char>)) -> bool {
    is_header_name(header.0) && is_header_value(header.1)
}

/// Whether every header of the list can be sent.
pub open spec fn headers_are_valid(headers: Seq<(Seq<char>, Seq<char>)>) -> bool {
    forall|i: int| 0 <= i < headers.len() ==> is_header(#[trigger] headers[i])
}

/// The HTTP request that an endpoint's pieces make, or the reason why they
/// make none. The steps fail in this order: no path for the versions
/// offered, no token where one is required, an address that is no URI, a
/// header that cannot be sent.
pub open spec fn built_request(
    metadata: MetadataView,
    parts: RequestPartsView,
    base_url: Seq<char>,
    access_token: SendAccessToken<'_>,
    versions: Seq<MatrixVersion>,
) -> Result<HttpRequestView, IntoHttpError> {
    match selected_path(versions, metadata) {
        None => Err(IntoHttpError::NoMatchingPath),
        Some(i) => match credential_of(metadata.authentication, access_token) {
            Err(e) => Err(e),
            Ok(credential) => {
                let url = request_url(
                    base_url,
                    metadata.path_candidates[i].path,
                    parts.path_args,
                    parts.query + credential_query(credential),
                );
                let headers = parts.headers + credential_headers(credential);
                if !is_uri(url) {
                    Err(IntoHttpError::Url)
                } else if !headers_are_valid(headers) {
                    Err(IntoHttpError::Header)
                } else {
                    Ok(
                        HttpRequestView {
                            method: metadata.method,
                            uri: url,
                            headers: headers,
                            body: parts.body,
                        },
                    )
                }
            },
        },
    }
}

/// The view of a conversion's outcome.
pub open spec fn request_result_view(r: Result<HttpRequest, IntoHttpError>) -> Result<
    HttpRequestView,
    IntoHttpError,
> {
    match r {
        Ok(request) => Ok(request@),
        Err(e) => Err(e),
    }
}

/// Removes the one trailing slash of a base address, if it has one.
pub fn trim_base(base_url: &str) -> (r: String)
    ensures
        r@ == trimmed_base(base_url@),
{
    let n = base_url.unicode_len();
    if n > 0 && base_url.get_char(n - 1) == '/' {
        String::from_str(base_url.substring_char(0, n - 1))
    } else {
        String::from_str(base_url)
    }
}

/// Makes the address of a request: the base without its trailing slash, the
/// path template with its arguments filled in, and, where there are query
/// pairs, `?` and the query string.
pub fn make_url(
    base_url: &str,
    template: &str,
    path_args: &[&str],
    query: &Vec<(String, String)>,
) -> (r: String)
    ensures
        r@ == request_url(base_url@, template@, strs_view(path_args@), pairs_view(query@)),
{
    let mut url = trim_base(base_url);
    let path = render_path(template, path_args);
    url.append(path.as_str());
    if query.len() > 0 {
        let encoded = form_encode(query);
        push_char(&mut url, '?');
        url.append(encoded.as_str());
    }
    assert(url@ =~= request_url(
        base_url@,
        template@,
        strs_view(path_args@),
        pairs_view(query@),
    ));
    url
}

/// Checks that every header of the list can be sent.
pub fn check_headers(headers: &Vec<(String, String)>) -> (r: bool)
    ensures
        r == headers_are_valid(headers_view(headers@)),
{
    let mut i: usize = 0;
    while i < headers.len()
        invariant
            0 <= i <= headers.len(),
            forall|j: int| 0 <= j < i ==> is_header(#[trigger] headers_view(headers@)[j]),
        decreases headers.len() - i,
    {
        if !check_header_name(headers[i].0.as_str()) || !check_header_value(
            headers[i].1.as_str(),
        ) {
            assert(!is_header(headers_view(headers@)[i as int]));
            return false;
        }
        i += 1;
    }
    true
}

/// Makes the HTTP request of an endpoint from the pieces of a request value.
///
/// The path is the first of the endpoint's paths that matches the versions
/// offered, with the path arguments filled in; it is appended to `base_url`,
/// whose one trailing slash is ignored. The access token goes into the
/// `authorization` header, or into the query for an endpoint that takes it
/// there; an endpoint without authentication never gets one.
pub fn build_http_request(
    metadata: &Metadata,
    parts: RequestParts<'_>,
    base_url: &str,
    access_token: SendAccessToken<'_>,
    considering_versions: &[MatrixVersion],
) -> (r: Result<HttpRequest, IntoHttpError>)
    ensures
        request_result_view(r) == built_request(
            metadata@,
            parts@,
            base_url@,
            access_token,
            considering_versions@,
        ),
        r == Err::<HttpRequest, IntoHttpError>(IntoHttpError::NeedsAuthentication) <==> (
        selected_path(considering_versions@, metadata@) is Some
            && metadata.authentication.requires_token() && access_token is Never),
{
    let template = match select_path(considering_versions, metadata) {
        Ok(template) => template,
        Err(_) => {
            return Err(IntoHttpError::NoMatchingPath);
        },
    };
    assert(template@ == metadata@.path_candidates[selected_path(
        considering_versions@,
        metadata@,
    )->0].path);
    let credential = match credential_for(metadata.authentication, access_token) {
        Ok(credential) => credential,
        Err(e) => {
            return Err(e);
        },
    };
    let ghost view = parts@;
    let RequestParts { path_args, query, headers, body } = parts;
    let mut query = query;
    let mut headers = headers;
    match credential {
        Credential::Query(token) => {
            query.push((String::from_str("access_token"), String::from_str(token)));
        },
        Credential::Bearer(token) => {
            headers.push(
                (String::from_str("authorization"), String::from_str("Bearer ").concat(token)),
            );
        },
        Credential::Absent => {},
    }
    assert(pairs_view(query@) =~= view.query + credential_query(credential));
    assert(headers_view(headers@) =~= view.headers + credential_headers(credential));
    let url = make_url(base_url, template, path_args.as_slice(), &query);
    if split_uri(url.as_str()).is_none() {
        return Err(IntoHttpError::Url);
    }
    if !check_headers(&headers) {
        return Err(IntoHttpError::Header);
    }
    Ok(HttpRequest { method: metadata.method, uri: url, headers, body })
}

} // verus!
