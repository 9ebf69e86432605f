//! User and session identifiers: 128-bit UUID values and their text form.

use vstd::prelude::*;
use crate::token::hex_digit;

verus! {

/// The UUID value that `uuid::Uuid::parse_str` reads from `text`, if any.
pub uninterp spec fn uuid_parse(text: Seq<char>) -> Option<u128>;

/// The `k`-th hex nibble (0..32) of `v`, most significant first.
pub open spec fn uuid_nibble(v: u128, k: int) -> int {
    ((v >> ((31 - k) * 4) as u128) & 0xfu128) as int
}

/// Which nibble the character at position `i` (0..36) of the hyphenated form shows.
pub open spec fn uuid_nibble_index(i: int) -> int {
    if i < 8 {
        i
    } else if i < 13 {
        i - 1
    } else if i < 18 {
        i - 2
    } else if i < 23 {
        i - 3
    } else {
        i - 4
    }
}

/// The hyphenated lowercase form `xxxxxxxx-xxxx-xxxx-xxxx-xxxxxxxxxxxx` of `v`.
pub open spec fn uuid_text(v: u128) -> Seq<char> {
    Seq::new(
        36,
        |i: int|
            if i == 8 || i == 13 || i == 18 || i == 23 {
                '-'
            } else {
                hex_digit(uuid_nibble(v, uuid_nibble_index(i)))
            },
    )
}

/// Calls `uuid::Uuid::parse_str` and takes the 128-bit value of the result.
/// Claims only that the result is the (named) outcome of that parse.
#[verifier::external_body]
pub(crate) fn parse_uuid(text: &str) -> (id: Option<u128>)
    ensures
        id == uuid_parse(text@),
{
    uuid::Uuid::parse_str(text).ok().map(|u| u.as_u128())
}

/// Calls `uuid::Uuid::from_u128(id).to_string()`. Claims the text is the
/// hyphenated lowercase form of `id`, and that `parse_str` reads it back as
/// `id` (the crate documents that it parses every format it generates).
#[verifier::external_body]
pub(crate) fn uuid_to_string(id: u128) -> (text: String)
    ensures
        text@ == uuid_text(id),
        uuid_parse(text@) == Some(id),
{
    uuid::Uuid::from_u128(id).to_string()
}

} // verus!
