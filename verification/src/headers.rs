//! Header maps of the `http` crate, as the rest of the library sees them.
//!
//! A `HeaderMap` is kept as it is and read and written through a few trusted
//! functions. Its model is the map from each header name (lower case) to the
//! values stored under that name, in order, each as its bytes.

use axum::http::{HeaderMap, HeaderValue};
use vstd::prelude::*;
use vstd::string::StringSliceAdditionalSpecFns;
use vstd::utf8::{
    decode_utf8, encode_utf8, encode_utf8_decode_utf8, encode_utf8_valid_utf8, is_ascii_chars,
    is_ascii_chars_encode_utf8, valid_utf8,
};

verus! {

/// `http::HeaderMap`, taken as it is: nothing inside it is visible here.
#[verifier::external_type_specification]
#[verifier::external_body]
#[verifier::reject_recursive_types(T)]
pub struct ExHeaderMap<T>(HeaderMap<T>);

/// `http::HeaderValue`, a byte string, taken as it is.
#[verifier::external_type_specification]
#[verifier::external_body]
pub struct ExHeaderValue(HeaderValue);

/// For each header name present in the map, the values stored under it, in
/// order, each as its bytes. Names are in lower case, as the map keeps them,
/// and a name that is present has at least one value.
pub uninterp spec fn header_values(headers: HeaderMap<HeaderValue>) -> Map<
    Seq<char>,
    Seq<Seq<u8>>,
>;

/// For each header name present in the map, the bytes of the first value
/// stored under it: what a lookup shows.
pub open spec fn header_first(headers: HeaderMap<HeaderValue>) -> Map<Seq<char>, Seq<u8>> {
    Map::new(
        |name: Seq<char>| header_values(headers).dom().contains(name),
        |name: Seq<char>| header_values(headers)[name][0],
    )
}

/// A map that is sure to take one more entry: it holds fewer than 6554
/// names. The map's table has at most 32768 slots, and the map refuses an
/// entry only where it would have to grow the table beyond that, which it
/// never tries while the names are fewer than a fifth of the slots.
pub open spec fn header_has_room(headers: HeaderMap<HeaderValue>) -> bool {
    header_values(headers).dom().finite() && header_values(headers).dom().len() < 6554
}

/// The bytes that a header value holds.
pub uninterp spec fn header_value_bytes(value: HeaderValue) -> Seq<u8>;

/// A character of the header names this library uses: a lower-case letter, a
/// digit or a hyphen.
pub open spec fn is_name_char(c: char) -> bool {
    ('a' <= c && c <= 'z') || ('0' <= c && c <= '9') || c == '-'
}

/// A header name that the map stores and finds under exactly this spelling:
/// between 1 and 64 characters, each a lower-case letter, a digit or a hyphen.
pub open spec fn is_plain_header_name(name: Seq<char>) -> bool {
    &&& 1 <= name.len() <= 64
    &&& forall|i: int| 0 <= i < name.len() ==> is_name_char(#[trigger] name[i])
}

/// A byte that may stand in a header value read as text: printable ASCII, a
/// space or a tab.
pub open spec fn is_visible_ascii(b: u8) -> bool {
    (32 <= b && b < 127) || b == 9
}

/// A byte that may stand in a header value at all: anything but DEL and the
/// control characters other than tab.
pub open spec fn is_value_byte(b: u8) -> bool {
    (32 <= b && b != 127) || b == 9
}

/// Every byte is visible ASCII.
pub open spec fn all_visible_ascii(bytes: Seq<u8>) -> bool {
    forall|i: int| 0 <= i < bytes.len() ==> is_visible_ascii(#[trigger] bytes[i])
}

/// Every byte may stand in a header value.
pub open spec fn all_value_bytes(bytes: Seq<u8>) -> bool {
    forall|i: int| 0 <= i < bytes.len() ==> is_value_byte(#[trigger] bytes[i])
}

/// ASCII bytes read as characters, one for one.
pub open spec fn ascii_chars(bytes: Seq<u8>) -> Seq<char> {
    Seq::new(bytes.len(), |i: int| bytes[i] as char)
}

/// The first value stored under `name` as text of any script: present when
/// the header is there and its bytes are valid UTF-8.
pub open spec fn header_utf8_text(headers: HeaderMap<HeaderValue>, name: Seq<char>) -> Option<
    Seq<char>,
> {
    if header_first(headers).dom().contains(name) && valid_utf8(header_first(headers)[name]) {
        Some(decode_utf8(header_first(headers)[name]))
    } else {
        None
    }
}

/// Visible ASCII bytes are the UTF-8 bytes of the characters they read as:
/// they are valid UTF-8, decode to those characters, and those characters
/// encode to them again.
pub proof fn lemma_visible_ascii_is_utf8(bytes: Seq<u8>)
    requires
        all_visible_ascii(bytes),
    ensures
        is_ascii_chars(ascii_chars(bytes)),
        encode_utf8(ascii_chars(bytes)) == bytes,
        valid_utf8(bytes),
        decode_utf8(bytes) == ascii_chars(bytes),
        all_value_bytes(bytes),
{
    let chars = ascii_chars(bytes);
    assert forall|i: int| 0 <= i < chars.len() implies '\0' <= #[trigger] chars[i] <= '\u{7f}' by {
        assert(is_visible_ascii(bytes[i]));
    }
    is_ascii_chars_encode_utf8(chars);
    assert forall|i: int| 0 <= i < bytes.len() implies encode_utf8(chars)[i] == bytes[i] by {
        assert(is_visible_ascii(bytes[i]));
        assert(chars[i] == bytes[i] as char);
        assert((bytes[i] as char) as u8 == bytes[i]);
    }
    assert(encode_utf8(chars) =~= bytes);
    encode_utf8_valid_utf8(chars);
    encode_utf8_decode_utf8(chars);
    assert forall|i: int| 0 <= i < bytes.len() implies is_value_byte(#[trigger] bytes[i]) by {
        assert(is_visible_ascii(bytes[i]));
    }
}

/// The text of the first value stored under `name`: present when the header
/// is there and its bytes are all visible ASCII.
pub open spec fn header_text(headers: HeaderMap<HeaderValue>, name: Seq<char>) -> Option<Seq<char>> {
    if header_first(headers).dom().contains(name) && all_visible_ascii(header_first(headers)[name]) {
        Some(ascii_chars(header_first(headers)[name]))
    } else {
        None
    }
}

/// Calls `HeaderMap::get` with a string key. Trusted: for a plain name the
/// map answers with the first value stored under that name, if there is one.
#[verifier::external_body]
pub(crate) fn header_get<'a>(headers: &'a HeaderMap<HeaderValue>, name: &str) -> (value: Option<
    &'a HeaderValue,
>)
    requires
        is_plain_header_name(name@),
    ensures
        value is Some <==> header_values(*headers).dom().contains(name@),
        value is Some ==> header_values(*headers)[name@].len() > 0 && header_value_bytes(
            *value.unwrap(),
        ) == header_values(*headers)[name@][0],
{
    headers.get(name)
}

/// Calls `HeaderValue::as_bytes`. Trusted: the slice is the value's bytes.
#[verifier::external_body]
pub(crate) fn header_value_as_bytes<'a>(value: &'a HeaderValue) -> (bytes: &'a [u8])
    ensures
        bytes@ == header_value_bytes(*value),
{
    value.as_bytes()
}

/// Calls `core::str::from_utf8`. Trusted: the bytes are read as text exactly
/// when they are valid UTF-8, and the text is then what they encode.
#[verifier::external_body]
pub(crate) fn utf8_text<'a>(bytes: &'a [u8]) -> (text: Option<&'a str>)
    ensures
        text is Some <==> valid_utf8(bytes@),
        text is Some ==> text.unwrap()@ == decode_utf8(bytes@),
{
    match core::str::from_utf8(bytes) {
        Ok(text) => Some(text),
        Err(_) => None,
    }
}

/// Calls `HeaderValue::to_str`. Trusted: the value reads as text exactly when
/// all its bytes are visible ASCII, and the text is then those bytes.
#[verifier::external_body]
pub(crate) fn header_value_to_str<'a>(value: &'a HeaderValue) -> (text: Option<&'a str>)
    ensures
        text is Some <==> all_visible_ascii(header_value_bytes(*value)),
        text is Some ==> text.unwrap()@ == ascii_chars(header_value_bytes(*value)),
{
    match value.to_str() {
        Ok(text) => Some(text),
        Err(_) => None,
    }
}

/// Calls `HeaderValue::from_str`. Trusted: a value is made exactly when every
/// byte of the text may stand in a header value, and it holds those bytes.
#[verifier::external_body]
pub(crate) fn header_value_from_str(text: &str) -> (value: Option<HeaderValue>)
    ensures
        value is Some <==> all_value_bytes(text.spec_bytes()),
        value is Some ==> header_value_bytes(value.unwrap()) == text.spec_bytes(),
{
    match HeaderValue::from_str(text) {
        Ok(value) => Some(value),
        Err(_) => None,
    }
}

/// Calls `HeaderMap::try_insert` with a static string key. Trusted: a map
/// with room takes the value; when the map takes it, the value becomes the
/// only one under that name and the other names are left alone; when the map
/// refuses it, nothing changes.
#[verifier::external_body]
pub(crate) fn header_try_insert(
    headers: &mut HeaderMap<HeaderValue>,
    name: &'static str,
    value: HeaderValue,
) -> (stored: bool)
    requires
        is_plain_header_name(name@),
    ensures
        header_has_room(*old(headers)) ==> stored,
        stored ==> header_values(*final(headers)) == header_values(*old(headers)).insert(
            name@,
            seq![header_value_bytes(value)],
        ),
        !stored ==> header_values(*final(headers)) == header_values(*old(headers)),
{
    headers.try_insert(name, value).is_ok()
}

/// What a lookup shows after a value is stored as the only one under a name.
pub proof fn lemma_first_after_insert(
    before: HeaderMap<HeaderValue>,
    after: HeaderMap<HeaderValue>,
    name: Seq<char>,
    bytes: Seq<u8>,
)
    requires
        header_values(after) == header_values(before).insert(name, seq![bytes]),
    ensures
        header_first(after) == header_first(before).insert(name, bytes),
{
    assert(header_first(after) =~= header_first(before).insert(name, bytes));
}

/// The first value stored under `name`, read as text of any script.
pub(crate) fn utf8_text_of<'a>(headers: &'a HeaderMap<HeaderValue>, name: &str) -> (text: Option<
    &'a str,
>)
    requires
        is_plain_header_name(name@),
    ensures
        text is Some <==> header_utf8_text(*headers, name@) is Some,
        text is Some ==> text.unwrap()@ == header_utf8_text(*headers, name@).unwrap(),
{
    match header_get(headers, name) {
        Some(value) => utf8_text(header_value_as_bytes(value)),
        None => None,
    }
}

/// The first value stored under `name`, read as text.
pub(crate) fn text_of<'a>(headers: &'a HeaderMap<HeaderValue>, name: &str) -> (text: Option<&'a str>)
    requires
        is_plain_header_name(name@),
    ensures
        text is Some <==> header_text(*headers, name@) is Some,
        text is Some ==> text.unwrap()@ == header_text(*headers, name@).unwrap(),
{
    match header_get(headers, name) {
        Some(value) => header_value_to_str(value),
        None => None,
    }
}

} // verus!
