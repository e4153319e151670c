use vstd::prelude::*;

verus! {

/// The identifier that `uuid::Uuid::parse_str` reads from `text`, as a 128-bit value; `None`
/// where it rejects the text.
pub uninterp spec fn uuid_from_text(text: Seq<char>) -> Option<u128>;

/// The lowercase hexadecimal digit for `n` (`0 <= n < 16`).
pub open spec fn hex_digit(n: u128) -> char {
    if n < 10 {
        ('0' as u128 + n) as char
    } else {
        ('a' as u128 + n - 10) as char
    }
}

/// The `j`-th of the 32 hexadecimal digits of `id`, most significant first.
pub open spec fn id_nibble(id: u128, j: int) -> u128 {
    (id >> ((124 - 4 * j) as u128)) & 0xfu128
}

/// Which of the 32 digits stands at position `k` of the hyphenated text (hyphens at 8, 13, 18
/// and 23).
pub open spec fn digit_index(k: int) -> int {
    if k < 8 {
        k
    } else if k < 13 {
        k - 1
    } else if k < 18 {
        k - 2
    } else if k < 23 {
        k - 3
    } else {
        k - 4
    }
}

/// The text that `uuid::Uuid`'s `Display` writes for the identifier `id`: its 32 lowercase
/// hexadecimal digits, most significant first, in groups of 8, 4, 4, 4 and 12 joined by hyphens.
pub open spec fn uuid_text(id: u128) -> Seq<char> {
    Seq::new(
        36,
        |k: int|
            if k == 8 || k == 13 || k == 18 || k == 23 {
                '-'
            } else {
                hex_digit(id_nibble(id, digit_index(k)))
            },
    )
}

/// Whether `id` carries the version 4 and the RFC 9562 variant in its version and variant fields.
pub open spec fn is_v4_id(id: u128) -> bool {
    &&& (id >> 76u128) & 0xfu128 == 4
    &&& (id >> 62u128) & 0x3u128 == 2
}

/// Calls `uuid::Uuid::parse_str`. Claims only that the result is the named reading of `text`.
#[verifier::external_body]
pub(crate) fn parse_uuid(text: &str) -> (id: Option<u128>)
    ensures
        id == uuid_from_text(text@),
{
    match uuid::Uuid::parse_str(text) {
        Ok(uuid) => Some(uuid.as_u128()),
        Err(_) => None,
    }
}

/// Formats `id` with `uuid::Uuid`'s `Display` (the hyphenated lowercase form), as `uuid_text`
/// states it.
#[verifier::external_body]
pub(crate) fn format_uuid(id: u128) -> (text: String)
    ensures
        text@ == uuid_text(id),
{
    uuid::Uuid::from_u128(id).to_string()
}

/// Calls `uuid::Uuid::new_v4`, which draws random bits and sets the version field to 4 and the
/// variant field to the RFC 9562 variant; that is all that is claimed of the result.
#[verifier::external_body]
pub(crate) fn random_uuid_v4() -> (id: u128)
    ensures
        is_v4_id(id),
{
    uuid::Uuid::new_v4().as_u128()
}

} // verus!
