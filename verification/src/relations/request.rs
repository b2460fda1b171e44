//! The request of the endpoint: its fields, its HTTP form, and how it is
//! read back from an HTTP request and its path arguments.

use vstd::prelude::*;
use super::response::Response;
use super::{lemma_path_is_always_selected, metadata_view};
use crate::auth::SendAccessToken;
use crate::encoding::pairs_view;
use crate::endpoint::OutgoingRequest;
use crate::error::{FromHttpRequestError, IntoHttpError};
use crate::identifiers::{is_identifier, EventId, RoomId, UInt, MAX_SAFE_UINT};
use crate::incoming::{
    lemma_values_of_concat,
    query_of_uri,
    query_pairs,
    query_value,
    single_value,
    values_of,
};
use crate::matrix_error::{json_headers, make_json_headers, MatrixError};
use crate::message::{opt_view, HttpRequest, HttpRequestView};
use crate::metadata::Metadata;
use crate::outgoing::{
    build_http_request,
    built_request,
    request_result_view,
    RequestParts,
    RequestPartsView,
};
use crate::path::strs_view;
use crate::text::{decimal, decimal_string, decimal_value, lemma_decimal_round_trip, parse_decimal};
use crate::version::MatrixVersion;

verus! {

/// Data for a request to the endpoint.
#[derive(Debug)]
pub struct Request<'a> {
    /// The ID of the room the parent event is in.
    pub room_id: &'a RoomId,
    /// The parent event ID.
    pub event_id: &'a EventId,
    /// The relationship type to search for, if any.
    pub rel_type: Option<String>,
    /// The event type of related events to search for, if any. As this is a
    /// path parameter after `rel_type`, it is ignored if `rel_type` is
    /// `None`.
    pub event_type: Option<String>,
    /// The pagination token to start returning results from.
    pub from: Option<&'a str>,
    /// The pagination token to stop returning results at.
    pub to: Option<&'a str>,
    /// The maximum number of results to return in a single `chunk`.
    pub limit: Option<UInt>,
}

/// A request to the endpoint as a server receives it.
#[derive(Debug, PartialEq, Eq)]
pub struct IncomingRequest {
    /// The ID of the room the parent event is in.
    pub room_id: RoomId,
    /// The parent event ID.
    pub event_id: EventId,
    /// The relationship type to search for, if any.
    pub rel_type: Option<String>,
    /// The event type of related events to search for, if any.
    pub event_type: Option<String>,
    /// The pagination token to start returning results from.
    pub from: Option<String>,
    /// The pagination token to stop returning results at.
    pub to: Option<String>,
    /// The maximum number of results to return in a single `chunk`.
    pub limit: Option<UInt>,
}

/// What a request to the endpoint holds, as mathematical values.
pub struct RequestView {
    pub room_id: Seq<char>,
    pub event_id: Seq<char>,
    pub rel_type: Option<Seq<char>>,
    pub event_type: Option<Seq<char>>,
    pub from: Option<Seq<char>>,
    pub to: Option<Seq<char>>,
    pub limit: Option<u64>,
}

/// The characters of an optional string slice.
pub open spec fn opt_str_view(s: Option<&str>) -> Option<Seq<char>> {
    match s {
        Some(s) => Some(s@),
        None => None,
    }
}

/// The value of an optional integer.
pub open spec fn opt_uint_view(n: Option<UInt>) -> Option<u64> {
    match n {
        Some(n) => Some(n@),
        None => None,
    }
}

impl<'a> View for Request<'a> {
    type V = RequestView;

    open spec fn view(&self) -> RequestView {
        RequestView {
            room_id: self.room_id@,
            event_id: self.event_id@,
            rel_type: opt_view(self.rel_type),
            event_type: opt_view(self.event_type),
            from: opt_str_view(self.from),
            to: opt_str_view(self.to),
            limit: opt_uint_view(self.limit),
        }
    }
}

impl View for IncomingRequest {
    type V = RequestView;

    open spec fn view(&self) -> RequestView {
        RequestView {
            room_id: self.room_id@,
            event_id: self.event_id@,
            rel_type: opt_view(self.rel_type),
            event_type: opt_view(self.event_type),
            from: opt_view(self.from),
            to: opt_view(self.to),
            limit: opt_uint_view(self.limit),
        }
    }
}

impl RequestView {
    /// Whether the fields hold what their types allow: identifiers with
    /// their sigils and a limit in range.
    pub open spec fn wf(self) -> bool {
        &&& is_identifier(self.room_id, '!')
        &&& is_identifier(self.event_id, '$')
        &&& match self.limit {
            Some(n) => n <= MAX_SAFE_UINT,
            None => true,
        }
    }
}

/// The path arguments of a request: room and event, then the relation
/// type if there is one, then the event type if there are both.
pub open spec fn path_args_of(request: RequestView) -> Seq<Seq<char>> {
    match request.rel_type {
        None => seq![request.room_id, request.event_id],
        Some(rel_type) => match request.event_type {
            None => seq![request.room_id, request.event_id, rel_type],
            Some(event_type) => seq![request.room_id, request.event_id, rel_type, event_type],
        },
    }
}

/// The query pair of a field, none where the field is absent.
pub open spec fn optional_pair(name: Seq<char>, value: Option<Seq<char>>) -> Seq<
    (Seq<char>, Seq<char>),
> {
    match value {
        Some(value) => seq![(name, value)],
        None => Seq::empty(),
    }
}

/// The digits of an optional limit.
pub open spec fn limit_text(limit: Option<u64>) -> Option<Seq<char>> {
    match limit {
        Some(n) => Some(decimal(n as nat)),
        None => None,
    }
}

/// The query pairs of a request: `from`, `to` and `limit`, each only where
/// the field is present.
pub open spec fn query_of(request: RequestView) -> Seq<(Seq<char>, Seq<char>)> {
    optional_pair("from"@, request.from) + optional_pair("to"@, request.to) + optional_pair(
        "limit"@,
        limit_text(request.limit),
    )
}

/// What a request gives to its HTTP form: path arguments, query pairs, the
/// content type, no body.
pub open spec fn request_parts(request: RequestView) -> RequestPartsView {
    RequestPartsView {
        path_args: path_args_of(request),
        query: query_of(request),
        headers: json_headers(),
        body: Seq::empty(),
    }
}

/// The HTTP form of a request, or the reason why it has none.
pub open spec fn outgoing_request(
    request: RequestView,
    base_url: Seq<char>,
    access_token: SendAccessToken<'_>,
    versions: Seq<MatrixVersion>,
) -> Result<HttpRequestView, IntoHttpError> {
    built_request(metadata_view(), request_parts(request), base_url, access_token, versions)
}

impl<'a> Request<'a> {
    /// Creates a new `Request` with the given room ID and parent event ID.
    pub fn new(room_id: &'a RoomId, event_id: &'a EventId) -> (r: Self)
        ensures
            r.room_id == room_id,
            r.event_id == event_id,
            r.rel_type is None,
            r.event_type is None,
            r.from is None,
            r.to is None,
            r.limit is None,
    {
        Request {
            room_id,
            event_id,
            rel_type: None,
            event_type: None,
            from: None,
            to: None,
            limit: None,
        }
    }

    /// The pieces that this request gives to its HTTP form.
    pub fn parts(&self) -> (r: RequestParts<'_>)
        ensures
            r@ == request_parts(self@),
    {
        let mut path_args: Vec<&str> = Vec::new();
        path_args.push(self.room_id.as_str());
        path_args.push(self.event_id.as_str());
        match &self.rel_type {
            Some(rel_type) => {
                path_args.push(rel_type.as_str());
                match &self.event_type {
                    Some(event_type) => {
                        path_args.push(event_type.as_str());
                    },
                    None => {},
                }
            },
            None => {},
        }
        let mut query: Vec<(String, String)> = Vec::new();
        match self.from {
            Some(from) => {
                query.push((String::from_str("from"), String::from_str(from)));
            },
            None => {},
        }
        match self.to {
            Some(to) => {
                query.push((String::from_str("to"), String::from_str(to)));
            },
            None => {},
        }
        match &self.limit {
            Some(limit) => {
                query.push((String::from_str("limit"), decimal_string(limit.get())));
            },
            None => {},
        }
        let r = RequestParts { path_args, query, headers: make_json_headers(), body: Vec::new() };
        assert(r@.path_args =~= path_args_of(self@));
        assert(r@.query =~= query_of(self@));
        assert(r@.body =~= Seq::<u8>::empty());
        r
    }
}

/// Whether the path arguments fit the endpoint: room and event identifier,
/// then at most a relation type and an event type.
pub open spec fn path_args_are_valid(path_args: Seq<Seq<char>>) -> bool {
    &&& 2 <= path_args.len() <= 4
    &&& is_identifier(path_args[0], '!')
    &&& is_identifier(path_args[1], '$')
}

/// The limit that the text of a query value stands for: a decimal number of
/// at most 2^53 - 1.
pub open spec fn limit_of_text(text: Option<Seq<char>>) -> Result<
    Option<u64>,
    FromHttpRequestError,
> {
    match text {
        None => Ok(None),
        Some(text) => match decimal_value(text) {
            Some(n) => if n <= MAX_SAFE_UINT {
                Ok(Some(n as u64))
            } else {
                Err(FromHttpRequestError::Query)
            },
            None => Err(FromHttpRequestError::Query),
        },
    }
}

/// The request that valid path arguments and query pairs stand for. Each of
/// `from`, `to` and `limit` may occur once; pairs under other names are
/// ignored.
pub open spec fn request_of_query(
    path_args: Seq<Seq<char>>,
    pairs: Seq<(Seq<char>, Seq<char>)>,
) -> Result<RequestView, FromHttpRequestError> {
    match single_value(pairs, "from"@) {
        Err(e) => Err(e),
        Ok(from) => match single_value(pairs, "to"@) {
            Err(e) => Err(e),
            Ok(to) => match single_value(pairs, "limit"@) {
                Err(e) => Err(e),
                Ok(text) => match limit_of_text(text) {
                    Err(e) => Err(e),
                    Ok(limit) => Ok(
                        RequestView {
                            room_id: path_args[0],
                            event_id: path_args[1],
                            rel_type: if path_args.len() >= 3 {
                                Some(path_args[2])
                            } else {
                                None
                            },
                            event_type: if path_args.len() >= 4 {
                                Some(path_args[3])
                            } else {
                                None
                            },
                            from: from,
                            to: to,
                            limit: limit,
                        },
                    ),
                },
            },
        },
    }
}

/// The request that path arguments and query pairs stand for, or the reason
/// why they stand for none.
pub open spec fn request_from_parts(
    path_args: Seq<Seq<char>>,
    pairs: Seq<(Seq<char>, Seq<char>)>,
) -> Result<RequestView, FromHttpRequestError> {
    if !path_args_are_valid(path_args) {
        Err(FromHttpRequestError::PathArgument)
    } else {
        request_of_query(path_args, pairs)
    }
}

/// The request that an HTTP request with the address `uri` and the given
/// path arguments stands for. The path arguments are judged first, then the
/// address, then the query.
pub open spec fn incoming_request(uri: Seq<char>, path_args: Seq<Seq<char>>) -> Result<
    RequestView,
    FromHttpRequestError,
> {
    if !path_args_are_valid(path_args) {
        Err(FromHttpRequestError::PathArgument)
    } else {
        match query_of_uri(uri) {
            None => Err(FromHttpRequestError::Uri),
            Some(pairs) => request_of_query(path_args, pairs),
        }
    }
}

/// The view of a conversion's outcome.
pub open spec fn incoming_result_view(r: Result<IncomingRequest, FromHttpRequestError>) -> Result<
    RequestView,
    FromHttpRequestError,
> {
    match r {
        Ok(request) => Ok(request@),
        Err(e) => Err(e),
    }
}

/// An owned copy of an optional string slice.
fn owned(s: Option<&str>) -> (r: Option<String>)
    ensures
        opt_view(r) == opt_str_view(s),
{
    match s {
        Some(s) => Some(String::from_str(s)),
        None => None,
    }
}

impl IncomingRequest {
    /// Reads the path arguments: two identifiers, then at most a relation
    /// type and an event type. The query fields are left absent.
    fn from_path_args(path_args: &[&str]) -> (r: Result<IncomingRequest, FromHttpRequestError>)
        ensures
            match r {
                Ok(request) => {
                    &&& path_args_are_valid(strs_view(path_args@))
                    &&& Ok::<RequestView, FromHttpRequestError>(request@) == request_of_query(
                        strs_view(path_args@),
                        Seq::empty(),
                    )
                },
                Err(e) => e == FromHttpRequestError::PathArgument && !path_args_are_valid(
                    strs_view(path_args@),
                ),
            },
    {
        let n = path_args.len();
        if n < 2 || n > 4 {
            return Err(FromHttpRequestError::PathArgument);
        }
        let room_id = match RoomId::parse(path_args[0]) {
            Ok(id) => id,
            Err(_) => {
                return Err(FromHttpRequestError::PathArgument);
            },
        };
        let event_id = match EventId::parse(path_args[1]) {
            Ok(id) => id,
            Err(_) => {
                return Err(FromHttpRequestError::PathArgument);
            },
        };
        let rel_type = if n >= 3 {
            Some(String::from_str(path_args[2]))
        } else {
            None
        };
        let event_type = if n >= 4 {
            Some(String::from_str(path_args[3]))
        } else {
            None
        };
        Ok(
            IncomingRequest {
                room_id,
                event_id,
                rel_type,
                event_type,
                from: None,
                to: None,
                limit: None,
            },
        )
    }

    /// Reads the query fields `from`, `to` and `limit` into a request whose
    /// path arguments have been read.
    fn with_query(self, pairs: &Vec<(String, String)>) -> (r: Result<
        IncomingRequest,
        FromHttpRequestError,
    >)
        ensures
            incoming_result_view(r) == match single_value(pairs_view(pairs@), "from"@) {
                Err(e) => Err(e),
                Ok(from) => match single_value(pairs_view(pairs@), "to"@) {
                    Err(e) => Err(e),
                    Ok(to) => match single_value(pairs_view(pairs@), "limit"@) {
                        Err(e) => Err(e),
                        Ok(text) => match limit_of_text(text) {
                            Err(e) => Err(e),
                            Ok(limit) => Ok(
                                RequestView {
                                    room_id: self@.room_id,
                                    event_id: self@.event_id,
                                    rel_type: self@.rel_type,
                                    event_type: self@.event_type,
                                    from: from,
                                    to: to,
                                    limit: limit,
                                },
                            ),
                        },
                    },
                },
            },
    {
        let from = match query_value(pairs, "from") {
            Ok(from) => owned(from),
            Err(e) => {
                return Err(e);
            },
        };
        let to = match query_value(pairs, "to") {
            Ok(to) => owned(to),
            Err(e) => {
                return Err(e);
            },
        };
        let limit = match query_value(pairs, "limit") {
            Ok(Some(text)) => match parse_decimal(text) {
                Some(n) => match UInt::new(n) {
                    Some(limit) => Some(limit),
                    None => {
                        return Err(FromHttpRequestError::Query);
                    },
                },
                None => {
                    return Err(FromHttpRequestError::Query);
                },
            },
            Ok(None) => None,
            Err(e) => {
                return Err(e);
            },
        };
        let IncomingRequest { room_id, event_id, rel_type, event_type, from: _, to: _, limit: _ } =
            self;
        Ok(IncomingRequest { room_id, event_id, rel_type, event_type, from, to, limit })
    }

    /// Makes a request from path arguments and the pairs of a query string.
    ///
    /// The path arguments are the room and event identifier, then at most a
    /// relation type and an event type. Of the pairs, `from`, `to` and
    /// `limit` are read, each at most once; the others are ignored.
    pub fn from_parts(path_args: &[&str], pairs: &Vec<(String, String)>) -> (r: Result<
        IncomingRequest,
        FromHttpRequestError,
    >)
        ensures
            incoming_result_view(r) == request_from_parts(
                strs_view(path_args@),
                pairs_view(pairs@),
            ),
    {
        match IncomingRequest::from_path_args(path_args) {
            Ok(request) => request.with_query(pairs),
            Err(e) => Err(e),
        }
    }
}

/// The values that the pair of one field gives under a name: the field's
/// value where the field is present and bears that name, none otherwise.
proof fn lemma_values_of_optional_pair(name: Seq<char>, value: Option<Seq<char>>, key: Seq<char>)
    ensures
        values_of(optional_pair(name, value), key) == if name == key && value is Some {
            seq![value->0]
        } else {
            Seq::empty()
        },
{
    match value {
        Some(v) => {
            let pairs = optional_pair(name, value);
            assert(pairs.drop_last() =~= Seq::empty());
            assert(pairs.last() == (name, v));
            assert(values_of(pairs.drop_last(), key) =~= Seq::empty());
            if name == key {
                assert(values_of(pairs, key) =~= seq![v]);
            }
        },
        None => {},
    }
}

/// The values that the query of a request gives under the name of one of
/// its three fields: the field's value where it is present.
proof fn lemma_query_values(request: RequestView, key: Seq<char>)
    requires
        key == "from"@ || key == "to"@ || key == "limit"@,
    ensures
        single_value(query_of(request), key) == Ok::<Option<Seq<char>>, FromHttpRequestError>(
            if key == "from"@ {
                request.from
            } else if key == "to"@ {
                request.to
            } else {
                limit_text(request.limit)
            },
        ),
{
    reveal_strlit("from");
    reveal_strlit("to");
    reveal_strlit("limit");
    assert("from"@.len() == 4 && "to"@.len() == 2 && "limit"@.len() == 5);
    let from = optional_pair("from"@, request.from);
    let to = optional_pair("to"@, request.to);
    let limit = optional_pair("limit"@, limit_text(request.limit));
    lemma_values_of_concat(from + to, limit, key);
    lemma_values_of_concat(from, to, key);
    lemma_values_of_optional_pair("from"@, request.from, key);
    lemma_values_of_optional_pair("to"@, request.to, key);
    lemma_values_of_optional_pair("limit"@, limit_text(request.limit), key);
    let values = values_of(query_of(request), key);
    assert(values == values_of(from, key) + values_of(to, key) + values_of(limit, key));
    if key == "from"@ {
        assert(values =~= values_of(from, key));
    } else if key == "to"@ {
        assert(values =~= values_of(to, key));
    } else {
        assert(values =~= values_of(limit, key));
    }
}

/// A request that is read back from the path arguments and the query pairs
/// that its outgoing form is made of is the same request, field for field.
///
/// This holds of every request whose event type is absent where its
/// relation type is: an event type without a relation type has no place in
/// the path and is not sent.
pub proof fn lemma_request_round_trip(request: RequestView)
    requires
        request.wf(),
        request.rel_type is None ==> request.event_type is None,
    ensures
        request_from_parts(path_args_of(request), query_of(request)) == Ok::<
            RequestView,
            FromHttpRequestError,
        >(request),
{
    reveal_strlit("from");
    reveal_strlit("to");
    reveal_strlit("limit");
    assert("from"@.len() == 4 && "to"@.len() == 2 && "limit"@.len() == 5);
    lemma_query_values(request, "from"@);
    lemma_query_values(request, "to"@);
    lemma_query_values(request, "limit"@);
    match request.limit {
        Some(n) => {
            lemma_decimal_round_trip(n as nat);
        },
        None => {},
    }
    let read = request_from_parts(path_args_of(request), query_of(request));
    assert(path_args_are_valid(path_args_of(request)));
    assert(read is Ok);
    assert(read->Ok_0.rel_type == request.rel_type);
    assert(read->Ok_0.event_type == request.event_type);
}

/// A request that is read back from its HTTP form and the path arguments
/// that the form was made of is the same request, field for field, wherever
/// the address of the form gives back the query pairs that were written
/// into it.
///
/// As in `lemma_request_round_trip`, the event type must be absent where
/// the relation type is.
pub proof fn lemma_http_round_trip(
    request: RequestView,
    base_url: Seq<char>,
    access_token: SendAccessToken<'_>,
    versions: Seq<MatrixVersion>,
)
    requires
        request.wf(),
        request.rel_type is None ==> request.event_type is None,
        outgoing_request(request, base_url, access_token, versions) is Ok,
        query_of_uri(outgoing_request(request, base_url, access_token, versions)->Ok_0.uri)
            == Some(query_of(request)),
    ensures
        incoming_request(
            outgoing_request(request, base_url, access_token, versions)->Ok_0.uri,
            path_args_of(request),
        ) == Ok::<RequestView, FromHttpRequestError>(request),
{
    lemma_request_round_trip(request);
}

impl<'a> OutgoingRequest for Request<'a> {
    type EndpointError = MatrixError;

    type IncomingResponse = Response;

    fn metadata() -> (r: Metadata)
        ensures
            r@ == metadata_view(),
    {
        super::metadata()
    }

    /// Tries to convert this request into an HTTP request.
    ///
    /// The endpoint has one path, bound to no version, and takes an access
    /// token: the conversion fails for want of authentication exactly when
    /// the caller sends no token, and never for want of a path.
    fn try_into_http_request(
        self,
        base_url: &str,
        access_token: SendAccessToken<'_>,
        considering_versions: &[MatrixVersion],
    ) -> (r: Result<HttpRequest, IntoHttpError>)
        ensures
            request_result_view(r) == outgoing_request(
                self@,
                base_url@,
                access_token,
                considering_versions@,
            ),
            r == Err::<HttpRequest, IntoHttpError>(IntoHttpError::NeedsAuthentication)
                <==> access_token is Never,
            r != Err::<HttpRequest, IntoHttpError>(IntoHttpError::NoMatchingPath),
    {
        let metadata = super::metadata();
        let parts = self.parts();
        proof {
            lemma_path_is_always_selected(considering_versions@);
        }
        build_http_request(&metadata, parts, base_url, access_token, considering_versions)
    }
}

impl crate::endpoint::IncomingRequest for IncomingRequest {
    type EndpointError = MatrixError;

    type OutgoingResponse = Response;

    fn metadata() -> (r: Metadata)
        ensures
            r@ == metadata_view(),
    {
        super::metadata()
    }

    /// Tries to turn the given HTTP request into this request type, together
    /// with the path arguments, which are percent-decoded and in the order
    /// of the path's placeholders.
    fn try_from_http_request(request: HttpRequest, path_args: &[&str]) -> (r: Result<
        IncomingRequest,
        FromHttpRequestError,
    >)
        ensures
            incoming_result_view(r) == incoming_request(request.uri@, strs_view(path_args@)),
    {
        let read = match IncomingRequest::from_path_args(path_args) {
            Ok(read) => read,
            Err(e) => {
                return Err(e);
            },
        };
        match query_pairs(&request) {
            Ok(pairs) => read.with_query(&pairs),
            Err(e) => Err(e),
        }
    }
}

} // verus!
