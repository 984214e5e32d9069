//! Parsing and printing of UUIDs, done by the `uuid` crate.

use vstd::prelude::*;
use std::str::FromStr;

verus! {

/// Lower-case hexadecimal digit of `n` (meaningful for `0 <= n < 16`).
pub open spec fn hex_digit(n: int) -> char {
    if n < 10 { crate::text::digit_char(n) }
    else if n == 10 { 'a' }
    else if n == 11 { 'b' }
    else if n == 12 { 'c' }
    else if n == 13 { 'd' }
    else if n == 14 { 'e' }
    else { 'f' }
}

/// Two lower-case hexadecimal digits per byte, most significant first.
pub open spec fn hex_bytes(b: Seq<u8>) -> Seq<char>
    decreases b.len(),
{
    if b.len() == 0 {
        Seq::empty()
    } else {
        seq![hex_digit((b[0] / 16) as int), hex_digit((b[0] % 16) as int)] + hex_bytes(b.drop_first())
    }
}

/// The hyphenated form `xxxxxxxx-xxxx-xxxx-xxxx-xxxxxxxxxxxx` of 16 bytes.
pub open spec fn hyphenated(b: Seq<u8>) -> Seq<char> {
    hex_bytes(b.subrange(0, 4)) + seq!['-'] + hex_bytes(b.subrange(4, 6)) + seq!['-']
        + hex_bytes(b.subrange(6, 8)) + seq!['-'] + hex_bytes(b.subrange(8, 10)) + seq!['-']
        + hex_bytes(b.subrange(10, 16))
}

/// Name for what `uuid::Uuid::from_str` makes of a string: the 16 bytes of
/// the UUID, or the text of the parse error.
pub uninterp spec fn parsed_uuid(s: Seq<char>) -> Result<Seq<u8>, Seq<char>>;

/// `uuid::Uuid::from_str` (which is `Uuid::parse_str`): the bytes of the UUID
/// that `s` spells, or the error's text (its `Display`). Both are the named
/// result [`parsed_uuid`]; which strings the crate accepts is not restated.
#[verifier::external_body]
pub(crate) fn parse_uuid(s: &str) -> (r: Result<[u8; 16], String>)
    ensures
        match (r, parsed_uuid(s@)) {
            (Ok(b), Ok(sb)) => b@ == sb,
            (Err(e), Err(se)) => e@ == se,
            _ => false,
        },
{
    match uuid::Uuid::from_str(s) {
        Ok(u) => Ok(*u.as_bytes()),
        Err(e) => Err(e.to_string()),
    }
}

/// `uuid::Uuid::from_bytes(bytes).to_string()`: the crate prints a UUID in
/// the hyphenated, lower-case form.
#[verifier::external_body]
pub(crate) fn uuid_text(bytes: [u8; 16]) -> (r: String)
    ensures
        r@ == hyphenated(bytes@),
{
    uuid::Uuid::from_bytes(bytes).to_string()
}


proof fn lemma_hex_bytes_len(b: Seq<u8>)
    ensures
        hex_bytes(b).len() == 2 * b.len(),
    decreases b.len(),
{
    if b.len() > 0 {
        lemma_hex_bytes_len(b.drop_first());
    }
}

/// The printed form of a UUID has 36 characters, with hyphens at positions
/// 8, 13, 18 and 23.
pub proof fn lemma_hyphenated_shape(b: Seq<u8>)
    requires
        b.len() == 16,
    ensures
        hyphenated(b).len() == 36,
        hyphenated(b)[8] == '-',
        hyphenated(b)[13] == '-',
        hyphenated(b)[18] == '-',
        hyphenated(b)[23] == '-',
{
    lemma_hex_bytes_len(b.subrange(0, 4));
    lemma_hex_bytes_len(b.subrange(4, 6));
    lemma_hex_bytes_len(b.subrange(6, 8));
    lemma_hex_bytes_len(b.subrange(8, 10));
    lemma_hex_bytes_len(b.subrange(10, 16));
}

} // verus!
