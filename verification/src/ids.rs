//! Identifiers: 128-bit ids and their text form (`uuid`).

use vstd::prelude::*;

verus! {

/// The lower-case hexadecimal digit for `d` (`0 <= d < 16`).
pub open spec fn hex_digit(d: nat) -> char {
    if d < 10 {
        (48 + d) as char
    } else {
        (87 + d) as char
    }
}

/// The last `count` hexadecimal digits of `v`, most significant first.
pub open spec fn hex_digits(v: nat, count: nat) -> Seq<char>
    decreases count,
{
    if count == 0 {
        Seq::empty()
    } else {
        hex_digits(v / 16, (count - 1) as nat).push(hex_digit(v % 16))
    }
}

/// The hyphenated text of an id: 32 lower-case hexadecimal digits in groups
/// of 8, 4, 4, 4 and 12, joined by hyphens.
pub open spec fn id_text(id: u128) -> Seq<char> {
    let h = hex_digits(id as nat, 32);
    h.subrange(0, 8) + seq!['-'] + h.subrange(8, 12) + seq!['-'] + h.subrange(12, 16) + seq!['-']
        + h.subrange(16, 20) + seq!['-'] + h.subrange(20, 32)
}

/// What `uuid::Uuid::parse_str` gives for a text, as the id's 128-bit value
/// (`None` where the text is no id).
pub uninterp spec fn parsed_id(text: Seq<char>) -> Option<u128>;

/// The hyphenated text of `id` (`uuid::Uuid::from_u128(id).to_string()`),
/// which `uuid` writes as 32 lower-case hexadecimal digits grouped 8-4-4-4-12.
#[verifier::external_body]
pub fn id_to_text(id: u128) -> (s: String)
    ensures
        s@ == id_text(id),
{
    uuid::Uuid::from_u128(id).to_string()
}

/// Reads an id from its text with `uuid::Uuid::parse_str`. The contract
/// claims that the result is the one `parsed_id` names, which depends on the
/// text alone, and that the hyphenated lower-case text of an id (what
/// `id_to_text` writes) reads back as that id. Which other texts `uuid`
/// accepts is not stated.
#[verifier::external_body]
pub fn parse_id(text: &str) -> (r: Option<u128>)
    ensures
        r == parsed_id(text@),
        forall|id: u128| #[trigger] id_text(id) == text@ ==> r == Some(id),
{
    match uuid::Uuid::parse_str(text) {
        Ok(id) => Some(id.as_u128()),
        Err(_) => None,
    }
}

/// A random id (`uuid::Uuid::new_v4`). Every outcome carries version 4 and
/// the RFC 4122 variant, which `new_v4` sets; the other bits are random.
#[verifier::external_body]
pub fn new_random_id() -> (id: u128)
    ensures
        (id as nat / 0x1_0000_0000_0000_0000_000) % 16 == 4,
        (id as nat / 0x4000_0000_0000_0000) % 4 == 2,
{
    uuid::Uuid::new_v4().as_u128()
}

} // verus!
