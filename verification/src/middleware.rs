//! Request-context propagation: the identity and trace metadata of one
//! request, derived from its headers at ingress and echoed at egress.

use crate::headers::{
    all_value_bytes, all_visible_ascii, ascii_chars, header_first, header_has_room, header_text,
    header_try_insert, header_utf8_text, header_value_bytes, header_value_from_str,
    header_values, is_name_char, is_plain_header_name, is_value_byte, is_visible_ascii,
    lemma_first_after_insert, lemma_visible_ascii_is_utf8, text_of, utf8_text_of,
};
use crate::ident::{
    format_uuid, fresh_v4, hex_digit, hyphenated, hyphens_before, is_hyphen_position,
    is_random_v4, lemma_v4_text_shows_version, nibble, parse_uuid, uuid_text_value,
};
use axum::http::{HeaderMap, HeaderValue};
use vstd::prelude::*;
use vstd::utf8::{decode_utf8, encode_utf8, is_ascii_chars, is_ascii_chars_encode_utf8, valid_utf8};

verus! {

/// Name of the header that carries the correlation id, inbound and outbound.
pub open spec fn correlation_header() -> Seq<char> {
    "x-correlation-id"@
}

/// Name of the header that carries the language preference.
pub open spec fn language_header() -> Seq<char> {
    "accept-language"@
}

/// The language of a request that states none.
pub open spec fn default_language() -> Seq<char> {
    "en"@
}

/// The correlation id that the request asks for: its header, where present,
/// readable as text and accepted as an identifier.
pub open spec fn requested_correlation_id(headers: HeaderMap<HeaderValue>) -> Option<u128> {
    match header_text(headers, correlation_header()) {
        Some(text) => uuid_text_value(text),
        None => None,
    }
}

/// The correlation id of a request: the one it asks for, else `fallback`.
pub open spec fn chosen_correlation_id(headers: HeaderMap<HeaderValue>, fallback: u128) -> u128 {
    match requested_correlation_id(headers) {
        Some(id) => id,
        None => fallback,
    }
}

/// The language of a request: the raw text of its header, whatever it says,
/// else the default. A header whose bytes are no text at all counts as
/// absent.
pub open spec fn chosen_language(headers: HeaderMap<HeaderValue>) -> Seq<char> {
    match header_utf8_text(headers, language_header()) {
        Some(text) => text,
        None => default_language(),
    }
}

/// The bytes of the canonical text of `id`.
pub open spec fn echo_bytes(id: u128) -> Seq<u8> {
    encode_utf8(hyphenated(id))
}

/// The bytes of the outbound correlation header for a request with these
/// headers: the bytes of the request's own header, untouched, where that
/// header holds a valid identifier in any accepted form; otherwise the
/// canonical text of `id`, the identifier drawn for the request.
pub open spec fn echoed_bytes(request: HeaderMap<HeaderValue>, id: u128) -> Seq<u8> {
    if requested_correlation_id(request) is Some {
        header_first(request)[correlation_header()]
    } else {
        echo_bytes(id)
    }
}

/// Identifier of an authenticated user.
#[derive(Clone, Copy, Debug)]
pub struct UserId(pub u128);

/// Metadata of one request, made once at ingress.
#[derive(Clone, Debug)]
pub struct RequestContext {
    /// Trace key across services: taken from the request or generated.
    pub correlation_id: u128,
    /// Set by a later authentication stage, never by the propagator.
    pub user_id: Option<UserId>,
    /// Raw language preference of the request, or the default.
    pub language: String,
    /// Identifier of this hop alone: always generated.
    pub request_id: u128,
}

/// What a [`RequestContext`] says.
pub struct RequestContextView {
    pub correlation_id: u128,
    pub user_id: Option<UserId>,
    pub language: Seq<char>,
    pub request_id: u128,
}

impl View for RequestContext {
    type V = RequestContextView;

    open spec fn view(&self) -> RequestContextView {
        RequestContextView {
            correlation_id: self.correlation_id,
            user_id: self.user_id,
            language: self.language@,
            request_id: self.request_id,
        }
    }
}

/// The context of a request with these headers, given the two identifiers
/// that ingress has drawn for it: the correlation id is the one the request
/// asks for, else `fallback`; the request id is `request_id` whatever the
/// headers say; the language is that of the request; no user is set.
pub open spec fn assembled(
    headers: HeaderMap<HeaderValue>,
    fallback: u128,
    request_id: u128,
) -> RequestContextView {
    RequestContextView {
        correlation_id: chosen_correlation_id(headers, fallback),
        user_id: None,
        language: chosen_language(headers),
        request_id,
    }
}

impl Default for RequestContext {
    /// A context for no particular request: fresh identifiers, no user, the
    /// default language.
    fn default() -> (ctx: Self)
        ensures
            is_random_v4(ctx.correlation_id),
            is_random_v4(ctx.request_id),
            ctx.user_id is None,
            ctx.language@ == default_language(),
    {
        RequestContext {
            correlation_id: fresh_v4(),
            user_id: None,
            language: "en".to_string(),
            request_id: fresh_v4(),
        }
    }
}

/// The two header names are plain: the map finds them as spelled.
pub proof fn lemma_header_names_plain()
    ensures
        is_plain_header_name(correlation_header()),
        is_plain_header_name(language_header()),
{
    reveal_strlit("x-correlation-id");
    reveal_strlit("accept-language");
    let c = correlation_header();
    assert(c.len() == 16);
    assert forall|i: int| 0 <= i < c.len() implies is_name_char(#[trigger] c[i]) by {}
    let l = language_header();
    assert(l.len() == 15);
    assert forall|i: int| 0 <= i < l.len() implies is_name_char(#[trigger] l[i]) by {}
}

/// The correlation id that the request carries, if it carries a valid one.
pub fn header_correlation_id(headers: &HeaderMap<HeaderValue>) -> (id: Option<u128>)
    ensures
        id == requested_correlation_id(*headers),
{
    proof {
        lemma_header_names_plain();
    }
    match text_of(headers, "x-correlation-id") {
        Some(text) => parse_uuid(text),
        None => None,
    }
}

/// The correlation id of a request: the one its header carries, where that
/// is a valid identifier, otherwise a freshly generated one.
pub fn extract_correlation_id(headers: &HeaderMap<HeaderValue>) -> (id: u128)
    ensures
        match requested_correlation_id(*headers) {
            Some(requested) => id == requested,
            None => is_random_v4(id),
        },
{
    match header_correlation_id(headers) {
        Some(id) => id,
        None => fresh_v4(),
    }
}

/// The language of a request: the raw value of its header, unchanged and in
/// whatever script, or `"en"` where the header is absent or its bytes are no
/// text at all.
pub fn extract_language(headers: &HeaderMap<HeaderValue>) -> (language: String)
    ensures
        language@ == chosen_language(*headers),
{
    proof {
        lemma_header_names_plain();
    }
    match utf8_text_of(headers, "accept-language") {
        Some(text) => text.to_string(),
        None => "en".to_string(),
    }
}

/// A character of the canonical identifier text: a hyphen or a lower-case
/// hexadecimal digit.
pub open spec fn is_canonical_char(c: char) -> bool {
    c == '-' || ('0' <= c && c <= '9') || ('a' <= c && c <= 'f')
}

/// Every hexadecimal digit is a canonical character.
pub proof fn lemma_hex_digit_is_canonical(n: int)
    requires
        0 <= n < 16,
    ensures
        is_canonical_char(hex_digit(n)),
{
    let digits = seq![
        '0',
        '1',
        '2',
        '3',
        '4',
        '5',
        '6',
        '7',
        '8',
        '9',
        'a',
        'b',
        'c',
        'd',
        'e',
        'f',
    ];
    assert(hex_digit(n) == digits[n]);
    if n < 8 {
        if n < 4 {
            assert(n == 0 || n == 1 || n == 2 || n == 3);
        } else {
            assert(n == 4 || n == 5 || n == 6 || n == 7);
        }
    } else {
        if n < 12 {
            assert(n == 8 || n == 9 || n == 10 || n == 11);
        } else {
            assert(n == 12 || n == 13 || n == 14 || n == 15);
        }
    }
}

/// The canonical text of any identifier can stand in a header: it is 36
/// characters of ASCII, its bytes are valid in a header value and visible,
/// and read back as text they give the canonical text again.
pub proof fn lemma_canonical_text_is_header_text(id: u128)
    ensures
        hyphenated(id).len() == 36,
        is_ascii_chars(hyphenated(id)),
        all_value_bytes(echo_bytes(id)),
        all_visible_ascii(echo_bytes(id)),
        ascii_chars(echo_bytes(id)) == hyphenated(id),
{
    let text = hyphenated(id);
    assert forall|i: int| 0 <= i < text.len() implies is_canonical_char(#[trigger] text[i]) by {
        if !is_hyphen_position(i) {
            lemma_hex_digit_is_canonical(nibble(id, i - hyphens_before(i)));
        }
    }
    assert(is_ascii_chars(text));
    is_ascii_chars_encode_utf8(text);
    let bytes = echo_bytes(id);
    assert forall|i: int| 0 <= i < bytes.len() implies is_value_byte(#[trigger] bytes[i])
        && is_visible_ascii(bytes[i]) && bytes[i] as char == text[i] by {
        assert(is_canonical_char(text[i]));
        assert(bytes[i] == text[i] as u8);
    }
    assert(ascii_chars(bytes) =~= text);
}

/// A request whose correlation header holds a valid identifier, in whatever
/// accepted form, gets the bytes of that header back untouched, and its
/// correlation id is the identifier that the header holds. Where the header
/// is the canonical text, those bytes are also the canonical text of the id.
pub proof fn law_valid_header_is_echoed_verbatim(
    headers: HeaderMap<HeaderValue>,
    fallback: u128,
    request_id: u128,
)
    requires
        header_text(headers, correlation_header()) is Some,
        uuid_text_value(header_text(headers, correlation_header())->0) is Some,
    ensures
        assembled(headers, fallback, request_id).correlation_id == uuid_text_value(
            header_text(headers, correlation_header())->0,
        )->0,
        echoed_bytes(headers, assembled(headers, fallback, request_id).correlation_id)
            == header_first(headers)[correlation_header()],
        header_text(headers, correlation_header())->0 == hyphenated(
            assembled(headers, fallback, request_id).correlation_id,
        ) ==> echo_bytes(assembled(headers, fallback, request_id).correlation_id)
            == header_first(headers)[correlation_header()],
{
    let id = chosen_correlation_id(headers, fallback);
    let bytes = header_first(headers)[correlation_header()];
    if header_text(headers, correlation_header())->0 == hyphenated(id) {
        lemma_visible_ascii_is_utf8(bytes);
    }
}

/// A request without a correlation header, or with one that is not text or
/// not an identifier, gets the identifier that ingress drew for it. Its
/// canonical text is 36 ASCII characters that can stand in a header, and
/// where the identifier is a version-4 one, the text shows it.
pub proof fn law_missing_or_malformed_header_takes_fresh_id(
    headers: HeaderMap<HeaderValue>,
    fallback: u128,
    request_id: u128,
)
    requires
        header_text(headers, correlation_header()) is None || uuid_text_value(
            header_text(headers, correlation_header())->0,
        ) is None,
    ensures
        assembled(headers, fallback, request_id).correlation_id == fallback,
        echoed_bytes(headers, fallback) == echo_bytes(fallback),
        hyphenated(fallback).len() == 36,
        all_value_bytes(echo_bytes(fallback)),
        ascii_chars(echo_bytes(fallback)) == hyphenated(fallback),
        is_random_v4(fallback) ==> hyphenated(fallback)[14] == '4' && (hyphenated(fallback)[19]
            == '8' || hyphenated(fallback)[19] == '9' || hyphenated(fallback)[19] == 'a'
            || hyphenated(fallback)[19] == 'b'),
{
    lemma_canonical_text_is_header_text(fallback);
    if is_random_v4(fallback) {
        lemma_v4_text_shows_version(fallback);
    }
}

/// The request id is the identifier that ingress drew for it, whatever the
/// headers hold and whatever the correlation id is; and no user is set.
pub proof fn law_request_id_ignores_headers(
    headers: HeaderMap<HeaderValue>,
    other_headers: HeaderMap<HeaderValue>,
    fallback: u128,
    other_fallback: u128,
    request_id: u128,
)
    ensures
        assembled(headers, fallback, request_id).request_id == request_id,
        assembled(other_headers, other_fallback, request_id).request_id == request_id,
        assembled(headers, fallback, request_id).user_id is None,
{
}

/// The request id differs from the correlation id wherever the identifier
/// drawn for it differs from the other one drawn and from the one that the
/// request carries.
pub proof fn law_request_id_differs_from_correlation_id(
    headers: HeaderMap<HeaderValue>,
    fallback: u128,
    request_id: u128,
)
    requires
        request_id != fallback,
        requested_correlation_id(headers) != Some(request_id),
    ensures
        assembled(headers, fallback, request_id).request_id != assembled(
            headers,
            fallback,
            request_id,
        ).correlation_id,
{
}

/// The language is `en` where the request has no language header, and the
/// raw text of the header wherever it is there and is text: the characters
/// that its bytes encode, and for visible ASCII bytes those bytes one for
/// one.
pub proof fn law_language_is_raw_or_default(
    headers: HeaderMap<HeaderValue>,
    fallback: u128,
    request_id: u128,
)
    ensures
        !header_values(headers).dom().contains(language_header()) ==> assembled(
            headers,
            fallback,
            request_id,
        ).language == "en"@,
        header_values(headers).dom().contains(language_header()) && valid_utf8(
            header_first(headers)[language_header()],
        ) ==> assembled(headers, fallback, request_id).language == decode_utf8(
            header_first(headers)[language_header()],
        ),
        header_text(headers, language_header()) is Some ==> assembled(
            headers,
            fallback,
            request_id,
        ).language == header_text(headers, language_header())->0,
{
    if header_text(headers, language_header()) is Some {
        lemma_visible_ascii_is_utf8(header_first(headers)[language_header()]);
    }
}

impl RequestContext {
    /// The context of a request with these headers, given the two fresh
    /// identifiers that ingress has drawn for it: the correlation id is the
    /// one the request carries, else `fallback_correlation_id`; the request
    /// id is `request_id` whatever the headers say; no user is set.
    pub fn assemble(
        headers: &HeaderMap<HeaderValue>,
        fallback_correlation_id: u128,
        request_id: u128,
    ) -> (ctx: Self)
        ensures
            ctx@ == assembled(*headers, fallback_correlation_id, request_id),
    {
        let correlation_id = match header_correlation_id(headers) {
            Some(id) => id,
            None => fallback_correlation_id,
        };
        RequestContext {
            correlation_id,
            user_id: None,
            language: extract_language(headers),
            request_id,
        }
    }

    /// Ingress: the context of a request with these headers. The request id
    /// is always drawn afresh; the correlation id only where the request
    /// carries no valid one.
    pub fn from_headers(headers: &HeaderMap<HeaderValue>) -> (ctx: Self)
        ensures
            exists|fallback: u128, request_id: u128|
                is_random_v4(fallback) && is_random_v4(request_id) && ctx@ == assembled(
                    *headers,
                    fallback,
                    request_id,
                ),
            is_random_v4(ctx.request_id),
            requested_correlation_id(*headers) is None ==> is_random_v4(ctx.correlation_id),
    {
        let correlation_id = extract_correlation_id(headers);
        let language = extract_language(headers);
        let request_id = fresh_v4();
        let ctx = RequestContext { correlation_id, user_id: None, language, request_id };
        proof {
            let fallback = if requested_correlation_id(*headers) is Some {
                request_id
            } else {
                correlation_id
            };
            assert(ctx@ == assembled(*headers, fallback, request_id));
        }
        ctx
    }

    /// Records the authenticated user. Nothing else changes.
    pub fn set_user_id(&mut self, user: UserId)
        ensures
            final(self)@ == (RequestContextView { user_id: Some(user), ..old(self)@ }),
    {
        self.user_id = Some(user);
    }

    /// The canonical text of the correlation id, as it is echoed. The `uuid`
    /// crate reads this text back as the same identifier.
    pub fn correlation_text(&self) -> (text: String)
        ensures
            text@ == hyphenated(self.correlation_id),
            uuid_text_value(text@) == Some(self.correlation_id),
    {
        format_uuid(self.correlation_id)
    }

    /// The value of the outbound correlation header: the bytes of the
    /// canonical text, which the `uuid` crate reads back as the same
    /// identifier. Making it never fails.
    pub fn correlation_header_value(&self) -> (value: HeaderValue)
        ensures
            header_value_bytes(value) == echo_bytes(self.correlation_id),
            uuid_text_value(hyphenated(self.correlation_id)) == Some(self.correlation_id),
    {
        let text = format_uuid(self.correlation_id);
        proof {
            lemma_canonical_text_is_header_text(self.correlation_id);
        }
        header_value_from_str(text.as_str()).unwrap()
    }

    /// Egress: sets the correlation header of a response, given the headers
    /// of its request. The value is the request's own correlation header,
    /// byte for byte, where that holds a valid identifier; otherwise the
    /// canonical text of this context's correlation id. It becomes the only
    /// value under the name, whatever the downstream pipeline put there, and
    /// the other headers are left alone. A response with room for one more
    /// header always gets it; a map that refuses the entry is left unchanged
    /// and `false` is returned.
    pub fn echo(
        &self,
        request_headers: &HeaderMap<HeaderValue>,
        response_headers: &mut HeaderMap<HeaderValue>,
    ) -> (attached: bool)
        ensures
            header_has_room(*old(response_headers)) ==> attached,
            attached ==> header_values(*final(response_headers)) == header_values(
                *old(response_headers),
            ).insert(
                correlation_header(),
                seq![echoed_bytes(*request_headers, self.correlation_id)],
            ),
            attached ==> header_first(*final(response_headers)) == header_first(
                *old(response_headers),
            ).insert(correlation_header(), echoed_bytes(*request_headers, self.correlation_id)),
            attached ==> requested_correlation_id(*final(response_headers)) == Some(
                chosen_correlation_id(*request_headers, self.correlation_id),
            ),
            !attached ==> header_values(*final(response_headers)) == header_values(
                *old(response_headers),
            ),
    {
        proof {
            lemma_header_names_plain();
        }
        let value = match text_of(request_headers, "x-correlation-id") {
            Some(text) => match parse_uuid(text) {
                Some(_) => {
                    proof {
                        lemma_visible_ascii_is_utf8(
                            header_first(*request_headers)[correlation_header()],
                        );
                    }
                    header_value_from_str(text).unwrap()
                },
                None => self.correlation_header_value(),
            },
            None => self.correlation_header_value(),
        };
        let ghost before = *response_headers;
        let attached = header_try_insert(response_headers, "x-correlation-id", value);
        proof {
            let bytes = echoed_bytes(*request_headers, self.correlation_id);
            assert(header_value_bytes(value) == bytes);
            if attached {
                lemma_first_after_insert(before, *response_headers, correlation_header(), bytes);
                if requested_correlation_id(*request_headers) is None {
                    lemma_canonical_text_is_header_text(self.correlation_id);
                }
            }
        }
        attached
    }
}

} // verus!
