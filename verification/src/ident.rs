//! Session identifiers: 128-bit numbers, written as hyphenated UUID text.

use vstd::prelude::*;
use vstd::arithmetic::power::pow;

verus! {

/// The sixteen digits that an identifier is written in.
pub open spec fn hex_digits() -> Seq<char> {
    seq!['0', '1', '2', '3', '4', '5', '6', '7', '8', '9', 'a', 'b', 'c', 'd', 'e', 'f']
}

/// The `k`-th of the 32 hexadecimal digits of `id`, counted from the most
/// significant.
pub open spec fn id_digit(id: u128, k: int) -> int {
    (id as int / pow(16, (31 - k) as nat)) % 16
}

/// The hyphens that stand before place `i` of the text.
pub open spec fn hyphens_before(i: int) -> int {
    if i > 23 {
        4
    } else if i > 18 {
        3
    } else if i > 13 {
        2
    } else if i > 8 {
        1
    } else {
        0
    }
}

/// The text of an identifier: its 32 digits in lower case, most significant
/// first, in groups of 8, 4, 4, 4 and 12 with a hyphen between two groups.
pub open spec fn id_text(id: u128) -> Seq<char> {
    Seq::new(
        36,
        |i: int|
            if i == 8 || i == 13 || i == 18 || i == 23 {
                '-'
            } else {
                hex_digits()[id_digit(id, i - hyphens_before(i))]
            },
    )
}

/// The identifier that the uuid crate reads from a text, or `None` where it
/// reads none. It takes more forms than the one written by `id_text`.
pub uninterp spec fn text_id(text: Seq<char>) -> Option<u128>;

/// Whether `id` is marked as a random identifier: the thirteenth digit is 4
/// for the version, the seventeenth is 8, 9, a or b for the variant.
pub open spec fn is_random_id(id: u128) -> bool {
    id_digit(id, 12) == 4 && 8 <= id_digit(id, 16) < 12
}

/// `uuid::Uuid::new_v4`, handed out as a number by `Uuid::as_u128`.
/// Claimed: the version and variant marks, which every outcome carries.
#[verifier::external_body]
pub(crate) fn random_id() -> (id: u128)
    ensures
        is_random_id(id),
{
    uuid::Uuid::new_v4().as_u128()
}

/// `to_string` of the `uuid::Uuid` that `Uuid::from_u128` makes of `id`.
/// Claimed: the text is the hyphenated lower-case form, and the uuid crate
/// reads it back as `id`.
#[verifier::external_body]
pub(crate) fn write_id(id: u128) -> (s: String)
    ensures
        s@ == id_text(id),
        text_id(s@) == Some(id),
{
    uuid::Uuid::from_u128(id).to_string()
}

/// `uuid::Uuid::parse_str`, handed out as a number by `Uuid::as_u128`.
/// Claimed: the result is the identifier named `text_id`.
#[verifier::external_body]
pub(crate) fn read_id(text: &str) -> (r: Option<u128>)
    ensures
        r == text_id(text@),
{
    match uuid::Uuid::parse_str(text) {
        Ok(id) => Some(id.as_u128()),
        Err(_) => None,
    }
}

} // verus!
