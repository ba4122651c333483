//! 128-bit identifiers and their textual forms.
//!
//! An identifier is held as a `u128` whose most significant byte is the first
//! byte of the UUID. Parsing, random generation and formatting are done by the
//! `uuid` crate; this module states what the rest of the library relies on.

use vstd::prelude::*;

verus! {

/// The identifier that `uuid::Uuid::parse_str` reads from `text`, or `None`
/// where it rejects the text. The accepted forms are those of the `uuid`
/// crate (simple, hyphenated, braced, URN); they are not restated here.
pub uninterp spec fn uuid_text_value(text: Seq<char>) -> Option<u128>;

/// Bits that every version-4 identifier of the RFC variant carries: the
/// version nibble is 4 and the two variant bits are `10`.
pub open spec fn is_random_v4(id: u128) -> bool {
    id & 0x0000_0000_0000_f000_c000_0000_0000_0000u128
        == 0x0000_0000_0000_4000_8000_0000_0000_0000u128
}

/// The lower-case hexadecimal digit for a value below 16.
pub open spec fn hex_digit(nibble: int) -> char {
    seq!['0', '1', '2', '3', '4', '5', '6', '7', '8', '9', 'a', 'b', 'c', 'd', 'e', 'f'][nibble]
}

/// The `k`-th of the 32 hexadecimal digits of `id`, most significant first.
pub open spec fn nibble(id: u128, k: int) -> int {
    ((id as int) / pow16(31 - k)) % 16
}

/// 16 to the power `e`.
pub open spec fn pow16(e: int) -> int
    decreases e,
{
    if e <= 0 {
        1
    } else {
        16 * pow16(e - 1)
    }
}

/// How many hyphens stand before position `i` of the hyphenated form.
pub open spec fn hyphens_before(i: int) -> int {
    if i < 8 {
        0
    } else if i < 13 {
        1
    } else if i < 18 {
        2
    } else if i < 23 {
        3
    } else {
        4
    }
}

/// Whether position `i` of the hyphenated form holds a hyphen.
pub open spec fn is_hyphen_position(i: int) -> bool {
    i == 8 || i == 13 || i == 18 || i == 23
}

/// The canonical text of an identifier: 32 lower-case hexadecimal digits in
/// groups of 8, 4, 4, 4 and 12, separated by hyphens.
pub open spec fn hyphenated(id: u128) -> Seq<char> {
    Seq::new(
        36,
        |i: int|
            if is_hyphen_position(i) {
                '-'
            } else {
                hex_digit(nibble(id, i - hyphens_before(i)))
            },
    )
}

/// The canonical text of a version-4 identifier shows what it is: the digit
/// after the second hyphen is `4`, and the digit after the third is `8`,
/// `9`, `a` or `b`.
pub proof fn lemma_v4_text_shows_version(id: u128)
    requires
        is_random_v4(id),
    ensures
        hyphenated(id).len() == 36,
        hyphenated(id)[14] == '4',
        hyphenated(id)[19] == '8' || hyphenated(id)[19] == '9' || hyphenated(id)[19] == 'a'
            || hyphenated(id)[19] == 'b',
{
    reveal_with_fuel(pow16, 20);
    assert(pow16(19) == 0x1000_0000_0000_0000_0000int);
    assert(pow16(15) == 0x1000_0000_0000_0000int);
    let version = (id / 0x1000_0000_0000_0000_0000u128) % 16u128;
    let variant = (id / 0x1000_0000_0000_0000u128) % 16u128;
    assert(version == 4 && 8 <= variant <= 11) by (bit_vector)
        requires
            id & 0x0000_0000_0000_f000_c000_0000_0000_0000u128
                == 0x0000_0000_0000_4000_8000_0000_0000_0000u128,
            version == (id / 0x1000_0000_0000_0000_0000u128) % 16u128,
            variant == (id / 0x1000_0000_0000_0000u128) % 16u128,
    ;
    assert(nibble(id, 12) == version);
    assert(nibble(id, 16) == variant);
    let digits = seq!['0', '1', '2', '3', '4', '5', '6', '7', '8', '9', 'a', 'b', 'c', 'd', 'e', 'f'];
    assert(digits[4] == '4' && digits[8] == '8' && digits[9] == '9' && digits[10] == 'a'
        && digits[11] == 'b');
}

/// Calls `uuid::Uuid::parse_str` and hands the identifier out as a `u128`
/// (`Uuid::as_u128`). Trusted: the result is what the crate's parser makes of
/// the text.
#[verifier::external_body]
pub(crate) fn parse_uuid(text: &str) -> (id: Option<u128>)
    ensures
        id == uuid_text_value(text@),
{
    match uuid::Uuid::parse_str(text) {
        Ok(parsed) => Some(parsed.as_u128()),
        Err(_) => None,
    }
}

/// Calls `uuid::Uuid::new_v4`. Trusted: whatever the random source gave, the
/// crate sets the version nibble to 4 and the variant bits to `10`.
#[verifier::external_body]
pub(crate) fn fresh_v4() -> (id: u128)
    ensures
        is_random_v4(id),
{
    uuid::Uuid::new_v4().as_u128()
}

/// Formats through `Display` of `uuid::Uuid` (made by `Uuid::from_u128`).
/// Trusted: the text is the lower-case hyphenated form, and the crate's parser
/// reads that form back as the same identifier.
#[verifier::external_body]
pub(crate) fn format_uuid(id: u128) -> (text: String)
    ensures
        text@ == hyphenated(id),
        uuid_text_value(text@) == Some(id),
{
    uuid::Uuid::from_u128(id).to_string()
}

} // verus!
