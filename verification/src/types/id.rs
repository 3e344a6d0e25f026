//! Identifiers of stored documents: 128-bit numbers, drawn at random and
//! written in the hyphenated form of a UUID.

use vstd::prelude::*;

verus! {

/// Whether `id` is marked as drawn at random: its version is 4 and its
/// variant is the one of RFC 9562.
pub open spec fn is_random_id(id: u128) -> bool {
    (id >> 76) & 0xf == 4 && (id >> 62) & 0x3 == 2
}

/// The character that writes `n`, a number below 16, in lower-case
/// hexadecimal.
pub open spec fn hex_digit(n: u128) -> char {
    if n < 10 {
        (('0' as u8) + n) as char
    } else {
        (('a' as u8) + n - 10) as char
    }
}

/// How many hyphens stand before index `i` in the hyphenated form.
pub open spec fn hyphens_before(i: int) -> int {
    if i < 8 {
        0
    } else if i < 13 {
        1
    } else if i < 18 {
        2
    } else if i < 23 {
        3
    } else {
        4
    }
}

/// The hyphenated form of `id`: its 32 hexadecimal digits, the highest first,
/// in lower case, in groups of 8, 4, 4, 4 and 12 with a hyphen between groups.
pub open spec fn hyphenated(id: u128) -> Seq<char> {
    Seq::new(
        36,
        |i: int|
            if i == 8 || i == 13 || i == 18 || i == 23 {
                '-'
            } else {
                hex_digit((id >> ((4 * (31 - (i - hyphens_before(i)))) as u128)) & 0xf)
            },
    )
}

/// `uuid::Uuid::new_v4`, taken as a number by `Uuid::as_u128`: a fresh
/// identifier. Which one is a matter of chance; all that is claimed is that it
/// is marked as random. Trusted, not proved.
#[verifier::external_body]
pub(crate) fn fresh_id() -> (id: u128)
    ensures
        is_random_id(id),
{
    uuid::Uuid::new_v4().as_u128()
}

/// The `to_string` of the `uuid::Uuid` that `Uuid::from_u128` makes of `id`:
/// the hyphenated lower-case form. Trusted, not proved.
#[verifier::external_body]
pub(crate) fn id_text(id: u128) -> (r: String)
    ensures
        r@ == hyphenated(id),
{
    uuid::Uuid::from_u128(id).to_string()
}

} // verus!
