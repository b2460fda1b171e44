//! Reading the query string, the headers and the body of an incoming
//! message.

use vstd::prelude::*;
use crate::encoding::{form_decode, form_decoded, pairs_view};
use crate::error::{DeserializationError, FromHttpRequestError};
use crate::json::{json_object, parse_object};
use crate::message::{split_uri, uri_target, HttpRequest, HttpResponse};
use crate::text::str_eq;

verus! {

/// The query pairs that the address `uri` carries: those of its query
/// string, none where it has no query string; `None` where `uri` is no URI.
pub open spec fn query_of_uri(uri: Seq<char>) -> Option<Seq<(Seq<char>, Seq<char>)>> {
    match uri_target(uri) {
        None => None,
        Some(target) => Some(
            form_decoded(
                match target.query {
                    Some(query) => query,
                    None => Seq::empty(),
                },
            ),
        ),
    }
}

/// The values that `pairs` gives under the name `key`, in order.
pub open spec fn values_of(pairs: Seq<(Seq<char>, Seq<char>)>, key: Seq<char>) -> Seq<Seq<char>>
    decreases pairs.len(),
{
    if pairs.len() == 0 {
        Seq::empty()
    } else if pairs.last().0 == key {
        values_of(pairs.drop_last(), key).push(pairs.last().1)
    } else {
        values_of(pairs.drop_last(), key)
    }
}

/// The value of a field that may occur once: absent where `key` does not
/// occur, an error where it occurs more than once.
pub open spec fn single_value(pairs: Seq<(Seq<char>, Seq<char>)>, key: Seq<char>) -> Result<
    Option<Seq<char>>,
    FromHttpRequestError,
> {
    let values = values_of(pairs, key);
    if values.len() == 0 {
        Ok(None)
    } else if values.len() == 1 {
        Ok(Some(values[0]))
    } else {
        Err(FromHttpRequestError::Query)
    }
}

/// Reads the query pairs of a request.
///
/// Fails with `Uri` where the address of the request is no URI. A request
/// without a query string has no pairs.
pub fn query_pairs(request: &HttpRequest) -> (r: Result<
    Vec<(String, String)>,
    FromHttpRequestError,
>)
    ensures
        match query_of_uri(request.uri@) {
            Some(pairs) => r is Ok && pairs_view(r->Ok_0@) == pairs,
            None => r == Err::<Vec<(String, String)>, FromHttpRequestError>(
                FromHttpRequestError::Uri,
            ),
        },
{
    match split_uri(request.uri.as_str()) {
        None => Err(FromHttpRequestError::Uri),
        Some(target) => match target.query {
            Some(query) => Ok(form_decode(query.as_str())),
            None => {
                proof {
                    reveal_strlit("");
                    assert(""@ =~= Seq::<char>::empty());
                }
                Ok(form_decode(""))
            },
        },
    }
}

/// Looks up the value of a query field that may occur once.
///
/// Pairs under other names are ignored. A name that occurs more than once
/// is a `Query` error.
pub fn query_value<'a>(pairs: &'a Vec<(String, String)>, key: &str) -> (r: Result<
    Option<&'a str>,
    FromHttpRequestError,
>)
    ensures
        match single_value(pairs_view(pairs@), key@) {
            Ok(Some(value)) => r is Ok && r->Ok_0 is Some && r->Ok_0->0@ == value,
            Ok(None) => r is Ok && r->Ok_0 is None,
            Err(e) => r == Err::<Option<&'a str>, FromHttpRequestError>(e),
        },
{
    let ghost all = pairs_view(pairs@);
    let mut found: Option<&'a str> = None;
    let mut i: usize = 0;
    assert(all.take(0) =~= Seq::empty());
    while i < pairs.len()
        invariant
            0 <= i <= pairs.len(),
            all == pairs_view(pairs@),
            values_of(all.take(i as int), key@).len() <= 1,
            match found {
                Some(value) => values_of(all.take(i as int), key@) == seq![value@],
                None => values_of(all.take(i as int), key@).len() == 0,
            },
        decreases pairs.len() - i,
    {
        let ghost next = all.take(i + 1);
        proof {
            assert(next.drop_last() =~= all.take(i as int));
            assert(next.last() == all[i as int]);
        }
        if str_eq(pairs[i].0.as_str(), key) {
            if found.is_some() {
                proof {
                    lemma_values_grow(all, key@, i + 1);
                }
                return Err(FromHttpRequestError::Query);
            }
            found = Some(pairs[i].1.as_str());
        }
        i += 1;
    }
    assert(all.take(pairs.len() as int) =~= all);
    Ok(found)
}

/// A longer list of pairs gives at least as many values under a name as
/// each of its beginnings.
pub proof fn lemma_values_grow(pairs: Seq<(Seq<char>, Seq<char>)>, key: Seq<char>, i: int)
    requires
        0 <= i <= pairs.len(),
    ensures
        values_of(pairs.take(i), key).len() <= values_of(pairs, key).len(),
    decreases pairs.len(),
{
    if i == pairs.len() {
        assert(pairs.take(i) =~= pairs);
    } else {
        assert(pairs.drop_last().take(i) =~= pairs.take(i));
        lemma_values_grow(pairs.drop_last(), key, i);
    }
}

/// The values of two lists of pairs in a row are the values of the first,
/// then those of the second.
pub proof fn lemma_values_of_concat(
    a: Seq<(Seq<char>, Seq<char>)>,
    b: Seq<(Seq<char>, Seq<char>)>,
    key: Seq<char>,
)
    ensures
        values_of(a + b, key) == values_of(a, key) + values_of(b, key),
    decreases b.len(),
{
    if b.len() == 0 {
        assert(a + b =~= a);
        assert(values_of(a, key) + values_of(b, key) =~= values_of(a, key));
    } else {
        assert((a + b).drop_last() =~= a + b.drop_last());
        assert((a + b).last() == b.last());
        lemma_values_of_concat(a, b.drop_last(), key);
        if b.last().0 == key {
            assert(values_of(a + b, key) =~= values_of(a, key) + values_of(b, key));
        }
    }
}

/// The value of the first pair of a list that bears the name `name`.
pub open spec fn first_of(pairs: Seq<(Seq<char>, Seq<char>)>, name: Seq<char>) -> Option<
    Seq<char>,
>
    decreases pairs.len(),
{
    if pairs.len() == 0 {
        None
    } else if pairs[0].0 == name {
        Some(pairs[0].1)
    } else {
        first_of(pairs.drop_first(), name)
    }
}

/// Looks up the value of the first pair of a list that bears the name
/// `name`.
pub fn find_first<'a>(pairs: &'a Vec<(String, String)>, name: &str) -> (r: Option<&'a str>)
    ensures
        match r {
            Some(value) => first_of(pairs_view(pairs@), name@) == Some(value@),
            None => first_of(pairs_view(pairs@), name@) is None,
        },
{
    let ghost all = pairs_view(pairs@);
    let mut i: usize = 0;
    assert(all.skip(0) =~= all);
    while i < pairs.len()
        invariant
            0 <= i <= pairs.len(),
            all == pairs_view(pairs@),
            first_of(all, name@) == first_of(all.skip(i as int), name@),
        decreases pairs.len() - i,
    {
        proof {
            assert(all.skip(i as int)[0] == all[i as int]);
            assert(all.skip(i as int).drop_first() =~= all.skip(i + 1));
        }
        if str_eq(pairs[i].0.as_str(), name) {
            return Some(pairs[i].1.as_str());
        }
        i += 1;
    }
    None
}

/// Reads a header that a request must have, by its literal name.
///
/// Fails with `Header` exactly where the request has no header of that
/// name. Of several headers of one name the first is taken.
pub fn request_header<'a>(request: &'a HttpRequest, name: &str) -> (r: Result<
    &'a str,
    FromHttpRequestError,
>)
    ensures
        match first_of(request@.headers, name@) {
            Some(value) => r is Ok && r->Ok_0@ == value,
            None => r == Err::<&'a str, FromHttpRequestError>(FromHttpRequestError::Header),
        },
{
    match find_first(&request.headers, name) {
        Some(value) => Ok(value),
        None => Err(FromHttpRequestError::Header),
    }
}

/// Reads a header that a response must have, by its literal name.
///
/// Fails with `Header` exactly where the response has no header of that
/// name. Of several headers of one name the first is taken.
pub fn response_header<'a>(response: &'a HttpResponse, name: &str) -> (r: Result<
    &'a str,
    DeserializationError,
>)
    ensures
        match first_of(response@.headers, name@) {
            Some(value) => r is Ok && r->Ok_0@ == value,
            None => r == Err::<&'a str, DeserializationError>(DeserializationError::Header),
        },
{
    match find_first(&response.headers, name) {
        Some(value) => Ok(value),
        None => Err(DeserializationError::Header),
    }
}

/// Reads the body of a request as a JSON object: its members, each with the
/// text of its value.
///
/// Fails with `Body` exactly where the body is not a JSON object.
pub fn request_body_members(request: &HttpRequest) -> (r: Result<
    Vec<(String, String)>,
    FromHttpRequestError,
>)
    ensures
        match json_object(request.body@) {
            Some(members) => r is Ok && pairs_view(r->Ok_0@) == members,
            None => r == Err::<Vec<(String, String)>, FromHttpRequestError>(
                FromHttpRequestError::Body,
            ),
        },
{
    match parse_object(request.body.as_slice()) {
        Some(members) => Ok(members),
        None => Err(FromHttpRequestError::Body),
    }
}

} // verus!
