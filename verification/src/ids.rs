use vstd::prelude::*;

verus! {

/// What `uuid::Uuid::parse_str` gives for a text: the identifier as a 128-bit
/// number, or the text of the parse error.
pub uninterp spec fn uuid_parse_result(text: Seq<char>) -> Result<u128, Seq<char>>;

/// The lower-case hexadecimal digit of a value below sixteen.
pub open spec fn lower_hex_digit(d: u128) -> char {
    if d < 10 { ((48 + d) as u32) as char } else { ((87 + d) as u32) as char }
}

/// The `k`-th hexadecimal digit (of 32) of an identifier, most significant first.
pub open spec fn id_nibble(id: u128, k: int) -> u128 {
    (id >> ((124 - 4 * k) as u128)) & 0xf
}

/// The text of an identifier in the hyphenated form: its 32 hexadecimal digits, most
/// significant first and in lower case, in groups of 8, 4, 4, 4 and 12 joined by `-`.
pub open spec fn uuid_text(id: u128) -> Seq<char> {
    Seq::new(36, |i: int|
        if i == 8 || i == 13 || i == 18 || i == 23 {
            '-'
        } else {
            lower_hex_digit(id_nibble(id, if i < 8 { i } else if i < 13 { i - 1 } else if i < 18 { i - 2 } else if i < 23 { i - 3 } else { i - 4 }))
        })
}

/// Parses a textual identifier with `uuid::Uuid::parse_str`.
/// Claimed: the result is `uuid_parse_result` of the text, the error taken as its text.
#[verifier::external_body]
pub(crate) fn parse_uuid(text: &str) -> (r: Result<u128, String>)
    ensures
        match (r, uuid_parse_result(text@)) {
            (Ok(a), Ok(b)) => a == b,
            (Err(e), Err(m)) => e@ == m,
            _ => false,
        },
{
    uuid::Uuid::parse_str(text).map(|u| u.as_u128()).map_err(|e| e.to_string())
}

/// Formats an identifier with `uuid::Uuid`'s `Display`.
/// Claimed: the text is `uuid_text` of the identifier (`Uuid::from_u128` takes the
/// number's big-endian bytes; `Display` writes them as hyphenated lower-case hex).
#[verifier::external_body]
pub(crate) fn uuid_to_string(id: u128) -> (s: String)
    ensures
        s@ == uuid_text(id),
{
    uuid::Uuid::from_u128(id).to_string()
}

/// A fresh random identifier from `uuid::Uuid::new_v4`.
/// Nothing is claimed of its value.
#[verifier::external_body]
pub(crate) fn new_uuid() -> (id: u128) {
    uuid::Uuid::new_v4().as_u128()
}

} // verus!
