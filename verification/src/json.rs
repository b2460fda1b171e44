//! What the JSON codec decides about the bytes of a body.
//!
//! The library does not read JSON itself. It asks the `serde_json` crate
//! whether bytes are JSON, for the members of an object, the elements of an
//! array and the value of a string, each as text, and frames bodies from
//! such texts.

use vstd::prelude::*;
use crate::encoding::pairs_view;
use crate::message::opt_view;
use crate::text::push_char;

verus! {

/// Whether `bytes` are one JSON value, as `serde_json` reads them.
pub uninterp spec fn is_json(bytes: Seq<u8>) -> bool;

/// The members of the JSON object `bytes`, each with the text of its value;
/// `None` where `bytes` are not a JSON object.
pub uninterp spec fn json_object(bytes: Seq<u8>) -> Option<Seq<(Seq<char>, Seq<char>)>>;

/// The elements of the JSON array `text`, each as text; `None` where `text`
/// is not a JSON array.
pub uninterp spec fn json_array(text: Seq<char>) -> Option<Seq<Seq<char>>>;

/// The string that the JSON value `text` holds: `Some(None)` for `null`,
/// `None` where `text` is neither a JSON string nor `null`.
pub uninterp spec fn json_optional_string(text: Seq<char>) -> Option<Option<Seq<char>>>;

/// The JSON string that holds `s`, with its quotes and escapes.
pub uninterp spec fn json_quoted(s: Seq<char>) -> Seq<char>;

/// The strings of a list as character sequences.
pub open spec fn strings_view(strings: Seq<String>) -> Seq<Seq<char>> {
    Seq::new(strings.len(), |i: int| strings[i]@)
}

/// Checks that bytes are one JSON value.
///
/// Calls `serde_json::from_slice` for a raw value. The contract only names
/// the result: it depends on nothing but the bytes.
#[verifier::external_body]
pub(crate) fn check_json(bytes: &[u8]) -> (r: bool)
    ensures
        r == is_json(bytes@),
{
    serde_json::from_slice::<Box<serde_json::value::RawValue>>(bytes).is_ok()
}

/// Reads the members of a JSON object, each value as its text.
///
/// Calls `serde_json::from_slice` for a map from names to raw values. The
/// contract only names the result: it depends on nothing but the bytes.
#[verifier::external_body]
pub(crate) fn parse_object(bytes: &[u8]) -> (r: Option<Vec<(String, String)>>)
    ensures
        match r {
            Some(members) => json_object(bytes@) == Some(pairs_view(members@)),
            None => json_object(bytes@) is None,
        },
{
    let members: std::collections::BTreeMap<String, Box<serde_json::value::RawValue>> =
        serde_json::from_slice(bytes).ok()?;
    Some(members.into_iter().map(|(name, value)| (name, value.get().to_string())).collect())
}

/// Reads the elements of a JSON array, each as its text.
///
/// Calls `serde_json::from_str` for a list of raw values. The contract only
/// names the result: it depends on nothing but the text.
#[verifier::external_body]
pub(crate) fn parse_array(text: &str) -> (r: Option<Vec<String>>)
    ensures
        match r {
            Some(elements) => json_array(text@) == Some(strings_view(elements@)),
            None => json_array(text@) is None,
        },
{
    let elements: Vec<Box<serde_json::value::RawValue>> = serde_json::from_str(text).ok()?;
    Some(elements.iter().map(|element| element.get().to_string()).collect())
}

/// Reads a JSON value that is a string or `null`.
///
/// Calls `serde_json::from_str` for an optional string. The contract only
/// names the result: it depends on nothing but the text.
#[verifier::external_body]
pub(crate) fn parse_optional_string(text: &str) -> (r: Option<Option<String>>)
    ensures
        match r {
            Some(value) => json_optional_string(text@) == Some(opt_view(value)),
            None => json_optional_string(text@) is None,
        },
{
    serde_json::from_str::<Option<String>>(text).ok()
}

/// Writes a string as a JSON string.
///
/// Calls `serde_json::to_string` on a string slice, which does not fail. The
/// contract only names the result: it depends on nothing but the string.
#[verifier::external_body]
pub(crate) fn quote(s: &str) -> (r: String)
    ensures
        r@ == json_quoted(s@),
{
    serde_json::to_string(s).unwrap_or_default()
}

/// The texts of a list with `,` between them.
pub open spec fn joined(items: Seq<Seq<char>>) -> Seq<char>
    decreases items.len(),
{
    if items.len() == 0 {
        Seq::empty()
    } else if items.len() == 1 {
        items[0]
    } else {
        joined(items.drop_last()) + seq![','] + items.last()
    }
}

/// Whether every text of a list is one JSON value.
pub open spec fn all_json(items: Seq<Seq<char>>) -> bool {
    forall|i: int| 0 <= i < items.len() ==> is_json(vstd::utf8::encode_utf8(#[trigger] items[i]))
}

/// The text of a JSON array with the given texts as its elements.
pub open spec fn array_text(items: Seq<Seq<char>>) -> Seq<char> {
    seq!['['] + joined(items) + seq![']']
}

/// The text of one member of a JSON object: the name as a JSON string, `:`,
/// the text of the value.
pub open spec fn member_text(member: (Seq<char>, Seq<char>)) -> Seq<char> {
    json_quoted(member.0) + seq![':'] + member.1
}

/// The texts of the members of a list.
pub open spec fn member_texts(members: Seq<(Seq<char>, Seq<char>)>) -> Seq<Seq<char>> {
    Seq::new(members.len(), |i: int| member_text(members[i]))
}

/// The text of a JSON object with the given members, each given with the
/// text of its value.
pub open spec fn object_text(members: Seq<(Seq<char>, Seq<char>)>) -> Seq<char> {
    seq!['{'] + joined(member_texts(members)) + seq!['}']
}

/// A list joined up to and with its item `i` is the list joined up to that
/// item, then `,` unless the item is the first, then the item.
pub proof fn lemma_joined_step(items: Seq<Seq<char>>, i: int)
    requires
        0 <= i < items.len(),
    ensures
        joined(items.take(i + 1)) == joined(items.take(i)) + if i > 0 {
            seq![','] + items[i]
        } else {
            items[i]
        },
{
    let next = items.take(i + 1);
    assert(next.drop_last() =~= items.take(i));
    assert(next.last() == items[i]);
    if i == 0 {
        assert(joined(items.take(0)) =~= Seq::<char>::empty());
        assert(joined(next) =~= joined(items.take(i)) + items[i]);
    } else {
        assert(joined(next) =~= joined(items.take(i)) + (seq![','] + items[i]));
    }
}

/// Writes a JSON array from the texts of its elements.
///
/// Returns `None` where one of the texts is not a JSON value.
pub fn write_array(items: &Vec<String>) -> (r: Option<String>)
    ensures
        match r {
            Some(text) => all_json(strings_view(items@)) && text@ == array_text(
                strings_view(items@),
            ),
            None => !all_json(strings_view(items@)),
        },
{
    let ghost all = strings_view(items@);
    let mut text = String::new();
    push_char(&mut text, '[');
    let mut i: usize = 0;
    assert(text@ =~= seq!['['] + joined(all.take(0)));
    while i < items.len()
        invariant
            0 <= i <= items.len(),
            all == strings_view(items@),
            text@ == seq!['['] + joined(all.take(i as int)),
            forall|j: int| 0 <= j < i ==> is_json(vstd::utf8::encode_utf8(#[trigger] all[j])),
        decreases items.len() - i,
    {
        let item = items[i].as_str();
        if !check_json(item.as_bytes()) {
            assert(!is_json(vstd::utf8::encode_utf8(all[i as int])));
            return None;
        }
        if i > 0 {
            push_char(&mut text, ',');
        }
        text.append(item);
        proof {
            lemma_joined_step(all, i as int);
            assert(text@ =~= seq!['['] + joined(all.take(i + 1)));
        }
        i += 1;
    }
    assert(all.take(items.len() as int) =~= all);
    push_char(&mut text, ']');
    Some(text)
}

/// Writes a JSON object from its members, each given with the text of its
/// value. The names are written as JSON strings, the values as they are.
pub fn write_object(members: &Vec<(String, String)>) -> (r: String)
    ensures
        r@ == object_text(pairs_view(members@)),
{
    let ghost all = member_texts(pairs_view(members@));
    let mut text = String::new();
    push_char(&mut text, '{');
    let mut i: usize = 0;
    assert(text@ =~= seq!['{'] + joined(all.take(0)));
    while i < members.len()
        invariant
            0 <= i <= members.len(),
            all == member_texts(pairs_view(members@)),
            text@ == seq!['{'] + joined(all.take(i as int)),
        decreases members.len() - i,
    {
        if i > 0 {
            push_char(&mut text, ',');
        }
        let name = quote(members[i].0.as_str());
        text.append(name.as_str());
        push_char(&mut text, ':');
        text.append(members[i].1.as_str());
        proof {
            lemma_joined_step(all, i as int);
            assert(all[i as int] == member_text(pairs_view(members@)[i as int]));
            assert(text@ =~= seq!['{'] + joined(all.take(i + 1)));
        }
        i += 1;
    }
    assert(all.take(members.len() as int) =~= all);
    push_char(&mut text, '}');
    text
}

} // verus!
