//! Percent-encoding of path segments and the form encoding of query strings.

use vstd::prelude::*;
use vstd::utf8::encode_utf8;

verus! {

/// Whether `b` is an ASCII letter or digit.
pub open spec fn is_alphanumeric_byte(b: u8) -> bool {
    (0x30 <= b && b <= 0x39) || (0x41 <= b && b <= 0x5a) || (0x61 <= b && b <= 0x7a)
}

/// The upper-case hexadecimal digit of `n`.
pub open spec fn hex_digit(n: nat) -> char
    recommends
        n < 16,
{
    if n < 10 {
        ((48 + n) as u8) as char
    } else {
        ((55 + n) as u8) as char
    }
}

/// A byte as `%` and its two hexadecimal digits.
pub open spec fn percent_escape(b: u8) -> Seq<char> {
    seq!['%', hex_digit((b / 16) as nat), hex_digit((b % 16) as nat)]
}

/// One byte of a path segment: letters and digits stand for themselves, every
/// other byte is escaped.
pub open spec fn percent_encoded_byte(b: u8) -> Seq<char> {
    if is_alphanumeric_byte(b) {
        seq![b as char]
    } else {
        percent_escape(b)
    }
}

/// The percent-encoding of a byte string, byte by byte.
pub open spec fn percent_encoded_bytes(bytes: Seq<u8>) -> Seq<char>
    decreases bytes.len(),
{
    if bytes.len() == 0 {
        Seq::empty()
    } else {
        percent_encoded_byte(bytes[0]) + percent_encoded_bytes(bytes.drop_first())
    }
}

/// The percent-encoding of a string: that of its UTF-8 bytes.
pub open spec fn percent_encoded(s: Seq<char>) -> Seq<char> {
    percent_encoded_bytes(encode_utf8(s))
}

/// Whether the form encoding leaves `b` as it is.
pub open spec fn is_form_safe_byte(b: u8) -> bool {
    is_alphanumeric_byte(b) || b == 0x2a || b == 0x2d || b == 0x2e || b == 0x5f
}

/// One byte of a query name or value: letters, digits and `*-._` stand for
/// themselves, a space becomes `+`, every other byte is escaped.
pub open spec fn form_encoded_byte(b: u8) -> Seq<char> {
    if is_form_safe_byte(b) {
        seq![b as char]
    } else if b == 0x20 {
        seq!['+']
    } else {
        percent_escape(b)
    }
}

/// The form encoding of a byte string, byte by byte.
pub open spec fn form_encoded_bytes(bytes: Seq<u8>) -> Seq<char>
    decreases bytes.len(),
{
    if bytes.len() == 0 {
        Seq::empty()
    } else {
        form_encoded_byte(bytes[0]) + form_encoded_bytes(bytes.drop_first())
    }
}

/// One pair of a query string: name, `=`, value.
pub open spec fn form_encoded_pair(pair: (Seq<char>, Seq<char>)) -> Seq<char> {
    form_encoded_bytes(encode_utf8(pair.0)) + seq!['='] + form_encoded_bytes(encode_utf8(pair.1))
}

/// The query string of a list of pairs: the encoded pairs with `&` between
/// them, empty for no pairs.
pub open spec fn form_encoded(pairs: Seq<(Seq<char>, Seq<char>)>) -> Seq<char>
    decreases pairs.len(),
{
    if pairs.len() == 0 {
        Seq::empty()
    } else if pairs.len() == 1 {
        form_encoded_pair(pairs[0])
    } else {
        form_encoded(pairs.drop_last()) + seq!['&'] + form_encoded_pair(pairs.last())
    }
}

/// The name and value pairs that a query string holds, as the form decoder
/// of the `form_urlencoded` crate reads them.
pub uninterp spec fn form_decoded(query: Seq<char>) -> Seq<(Seq<char>, Seq<char>)>;

/// The pairs of strings as pairs of character sequences.
pub open spec fn pairs_view(pairs: Seq<(String, String)>) -> Seq<(Seq<char>, Seq<char>)> {
    Seq::new(pairs.len(), |i: int| (pairs[i].0@, pairs[i].1@))
}

/// Percent-encodes a path segment.
///
/// Calls `percent_encoding::utf8_percent_encode` with the set
/// `NON_ALPHANUMERIC`. The contract claims what that function documents:
/// every byte of the UTF-8 form of `s` that is not an ASCII letter or digit
/// is replaced by `%` and two upper-case hexadecimal digits, the others are
/// kept.
#[verifier::external_body]
pub(crate) fn percent_encode(s: &str) -> (r: String)
    ensures
        r@ == percent_encoded(s@),
{
    percent_encoding::utf8_percent_encode(s, percent_encoding::NON_ALPHANUMERIC).to_string()
}

/// Serializes name and value pairs as a query string.
///
/// Calls `form_urlencoded::Serializer::extend_pairs` on an empty string. The
/// contract claims what the serializer's source shows: each pair is written
/// as name, `=`, value, with `&` before every pair but the first; in names
/// and values the bytes `*-._`, letters and digits are kept, a space becomes
/// `+`, any other byte `%` and two upper-case hexadecimal digits.
#[verifier::external_body]
pub(crate) fn form_encode(pairs: &Vec<(String, String)>) -> (r: String)
    ensures
        r@ == form_encoded(pairs_view(pairs@)),
{
    form_urlencoded::Serializer::new(String::new()).extend_pairs(pairs).finish()
}

/// Reads the name and value pairs of a query string.
///
/// Calls `form_urlencoded::parse`. The contract only names the result: the
/// pairs depend on nothing but the query string.
#[verifier::external_body]
pub(crate) fn form_decode(query: &str) -> (r: Vec<(String, String)>)
    ensures
        pairs_view(r@) == form_decoded(query@),
{
    form_urlencoded::parse(query.as_bytes()).into_owned().collect()
}

/// Whether `c` is a letter, a digit or `%`: what a percent-encoded string
/// is made of.
pub open spec fn is_segment_char(c: char) -> bool {
    ('0' <= c && c <= '9') || ('A' <= c && c <= 'Z') || ('a' <= c && c <= 'z') || c == '%'
}

/// A percent-encoded string holds letters, digits and `%` only: whatever an
/// argument holds, it adds no `/`, `?` or `#` to a path.
pub proof fn lemma_percent_encoded_is_segment(bytes: Seq<u8>)
    ensures
        forall|i: int|
            0 <= i < percent_encoded_bytes(bytes).len() ==> is_segment_char(
                #[trigger] percent_encoded_bytes(bytes)[i],
            ),
    decreases bytes.len(),
{
    if bytes.len() > 0 {
        let head = percent_encoded_byte(bytes[0]);
        let tail = percent_encoded_bytes(bytes.drop_first());
        lemma_percent_encoded_is_segment(bytes.drop_first());
        assert forall|i: int| 0 <= i < head.len() implies is_segment_char(#[trigger] head[i]) by {
            let b = bytes[0];
            if !is_alphanumeric_byte(b) {
                assert(b / 16 < 16 && b % 16 < 16);
            }
        }
        assert forall|i: int| 0 <= i < (head + tail).len() implies is_segment_char(
            #[trigger] (head + tail)[i],
        ) by {
            if i >= head.len() {
                assert((head + tail)[i] == tail[i - head.len()]);
            }
        }
    }
}

} // verus!
