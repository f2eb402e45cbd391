use vstd::prelude::*;
use vstd::arithmetic::power::pow;

verus! {

/// The value that uuid's parser reads from `text`, if it reads one.
pub uninterp spec fn uuid_parse(text: Seq<char>) -> Option<u128>;

pub open spec fn hex_digit(d: int) -> char {
    seq!['0', '1', '2', '3', '4', '5', '6', '7', '8', '9', 'a', 'b', 'c', 'd', 'e', 'f'][d]
}

/// The `i`-th of the 32 hexadecimal digits of `id`, most significant first.
pub open spec fn nibble(id: u128, i: int) -> int {
    (id as int / pow(16, (31 - i) as nat)) % 16
}

/// The hexadecimal digits of `id` from position `from` up to `to`.
pub open spec fn hex_span(id: u128, from: int, to: int) -> Seq<char> {
    Seq::new((to - from) as nat, |k: int| hex_digit(nibble(id, from + k)))
}

/// The hyphenated lower-case text of the identifier `id`: its 32 hexadecimal
/// digits in groups of 8, 4, 4, 4 and 12.
pub open spec fn uuid_text(id: u128) -> Seq<char> {
    hex_span(id, 0, 8) + seq!['-'] + hex_span(id, 8, 12) + seq!['-'] + hex_span(id, 12, 16) + seq!['-']
        + hex_span(id, 16, 20) + seq!['-'] + hex_span(id, 20, 32)
}

/// Relies on uuid::Uuid::parse_str (with Uuid::as_u128): the 128-bit value of
/// an identifier written in one of the forms that uuid accepts.
#[verifier::external_body]
pub(crate) fn parse_uuid(text: &str) -> (r: Option<u128>)
    ensures
        r == uuid_parse(text@),
{
    uuid::Uuid::parse_str(text).ok().map(|u| u.as_u128())
}

/// Relies on the Display impl of uuid::Uuid (with Uuid::from_u128), which
/// writes the hyphenated lower-case form; uuid's parser reads it back.
#[verifier::external_body]
pub(crate) fn uuid_to_string(id: u128) -> (r: String)
    ensures
        r@ == uuid_text(id),
        uuid_parse(r@) == Some(id),
{
    uuid::Uuid::from_u128(id).to_string()
}

} // verus!
