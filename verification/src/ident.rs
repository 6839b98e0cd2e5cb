//! Identifiers of loaded binaries: 128-bit values that are drawn at random and
//! written as hyphenated lower-case hexadecimal text.

use vstd::prelude::*;
use vstd::arithmetic::power::pow;

verus! {

/// The bits that carry the version and the variant of an identifier.
pub const KIND_MASK: u128 = 0x0000_0000_0000_F000_C000_0000_0000_0000;

/// The version (4, random) and the variant that every fresh identifier has.
pub const RANDOM_KIND: u128 = 0x0000_0000_0000_4000_8000_0000_0000_0000;

/// Length of the text of an identifier: 32 digits and 4 hyphens.
pub const ID_TEXT_LEN: usize = 36;

/// Whether `id` is marked as a random identifier.
pub open spec fn is_random_kind(id: u128) -> bool {
    id & KIND_MASK == RANDOM_KIND
}

/// The lower-case hexadecimal digit of `v`.
pub open spec fn hex_char(v: int) -> char
    recommends
        0 <= v < 16,
{
    if v < 10 {
        ('0' as int + v) as char
    } else {
        ('a' as int + (v - 10)) as char
    }
}

/// Digit `k` of the 32 hexadecimal digits of `id`, most significant first.
pub open spec fn hex_digit(id: u128, k: int) -> int
    recommends
        0 <= k < 32,
{
    (id as int / pow(16, (31 - k) as nat)) % 16
}

/// How many hyphens stand before position `i` of the text of an identifier.
pub open spec fn hyphens_before(i: int) -> int {
    (if i > 8 { 1int } else { 0 }) + (if i > 13 { 1int } else { 0 }) + (if i > 18 { 1int } else { 0 })
        + (if i > 23 { 1int } else { 0 })
}

/// The text of `id`: its 32 lower-case hexadecimal digits in groups of 8, 4,
/// 4, 4 and 12, with a hyphen between groups.
pub open spec fn id_text(id: u128) -> Seq<char> {
    Seq::new(
        ID_TEXT_LEN as nat,
        |i: int|
            if i == 8 || i == 13 || i == 18 || i == 23 {
                '-'
            } else {
                hex_char(hex_digit(id, i - hyphens_before(i)))
            },
    )
}

/// `uuid::Uuid::new_v4`, read as a 128-bit value by `Uuid::as_u128`. The
/// value is random. Whatever is drawn, the crate sets the version bits to 4
/// and the variant bits to binary 10; no more is claimed.
#[verifier::external_body]
fn random_id() -> (id: u128)
    ensures
        is_random_kind(id),
{
    uuid::Uuid::new_v4().as_u128()
}

/// `Display` of `uuid::Uuid`, on the identifier made by `Uuid::from_u128`:
/// the hyphenated lower-case form.
#[verifier::external_body]
fn hyphenated(id: u128) -> (text: String)
    ensures
        text@ == id_text(id),
{
    uuid::Uuid::from_u128(id).to_string()
}

/// Draws a fresh identifier.
pub fn fresh_id() -> (id: u128)
    ensures
        is_random_kind(id),
{
    random_id()
}

/// Writes `id` as text.
pub fn id_string(id: u128) -> (text: String)
    ensures
        text@ == id_text(id),
        text@.len() == ID_TEXT_LEN,
{
    hyphenated(id)
}

} // verus!
