//! Small text helpers shared by the other modules.

use vstd::prelude::*;
use vstd::string::*;
use vstd::utf8::*;

verus! {

/// The ASCII digit for `d` (meaningful for `0 <= d < 10`).
pub open spec fn digit_char(d: int) -> char {
    if d == 0 { '0' }
    else if d == 1 { '1' }
    else if d == 2 { '2' }
    else if d == 3 { '3' }
    else if d == 4 { '4' }
    else if d == 5 { '5' }
    else if d == 6 { '6' }
    else if d == 7 { '7' }
    else if d == 8 { '8' }
    else { '9' }
}

/// Decimal digits of a natural number, most significant first, no leading zeros.
pub open spec fn decimal_digits(n: nat) -> Seq<char>
    decreases n,
{
    if n < 10 {
        seq![digit_char(n as int)]
    } else {
        decimal_digits(n / 10).push(digit_char((n % 10) as int))
    }
}

/// The decimal rendering of an integer, with a leading `-` when negative.
pub open spec fn decimal(n: int) -> Seq<char> {
    if n < 0 {
        seq!['-'] + decimal_digits((-n) as nat)
    } else {
        decimal_digits(n as nat)
    }
}

fn digit_str(d: u64) -> (s: &'static str)
    requires
        d < 10,
    ensures
        s@ == seq![digit_char(d as int)],
{
    if d == 0 {
        proof { reveal_strlit("0"); }
        "0"
    } else if d == 1 {
        proof { reveal_strlit("1"); }
        "1"
    } else if d == 2 {
        proof { reveal_strlit("2"); }
        "2"
    } else if d == 3 {
        proof { reveal_strlit("3"); }
        "3"
    } else if d == 4 {
        proof { reveal_strlit("4"); }
        "4"
    } else if d == 5 {
        proof { reveal_strlit("5"); }
        "5"
    } else if d == 6 {
        proof { reveal_strlit("6"); }
        "6"
    } else if d == 7 {
        proof { reveal_strlit("7"); }
        "7"
    } else if d == 8 {
        proof { reveal_strlit("8"); }
        "8"
    } else {
        proof { reveal_strlit("9"); }
        "9"
    }
}

fn push_decimal_digits(n: u64, out: &mut String)
    ensures
        final(out)@ == old(out)@ + decimal_digits(n as nat),
    decreases n,
{
    if n >= 10 {
        push_decimal_digits(n / 10, out);
    }
    out.append(digit_str(n % 10));
}

/// Appends the decimal rendering of `n` to `out`.
pub fn push_decimal(out: &mut String, n: i64)
    ensures
        final(out)@ == old(out)@ + decimal(n as int),
{
    if n < 0 {
        proof { reveal_strlit("-"); }
        out.append("-");
        let magnitude: u64 = (0i128 - (n as i128)) as u64;
        push_decimal_digits(magnitude, out);
        assert(out@ =~= old(out)@ + decimal(n as int)) by {
            assert(seq!['-'] + decimal_digits((-n) as nat) == decimal(n as int));
        }
    } else {
        push_decimal_digits(n as u64, out);
    }
}

/// The decimal rendering of `n`, as `n.to_string()` gives it.
pub fn decimal_string(n: i64) -> (s: String)
    ensures
        s@ == decimal(n as int),
{
    let mut s = String::new();
    push_decimal(&mut s, n);
    s
}

/// The decimal rendering of an unsigned `n`.
pub fn decimal_string_u64(n: u64) -> (s: String)
    ensures
        s@ == decimal_digits(n as nat),
{
    let mut s = String::new();
    push_decimal_digits(n, &mut s);
    s
}

/// `true` when `needle` occurs as a contiguous run of characters in `hay`.
pub open spec fn contains_run(hay: Seq<char>, needle: Seq<char>) -> bool {
    exists|i: int| 0 <= i <= hay.len() - needle.len() && #[trigger] hay.subrange(i, i + needle.len()) == needle
}

/// `c` is an ASCII lower-case letter.
pub open spec fn is_ascii_lower(c: char) -> bool {
    97 <= (c as u32) <= 122
}

/// `c` is an ASCII upper-case letter.
pub open spec fn is_ascii_upper(c: char) -> bool {
    65 <= (c as u32) <= 90
}

/// `c` with an ASCII lower-case letter turned into its upper-case form.
pub open spec fn ascii_upper_char(c: char) -> char {
    if is_ascii_lower(c) { ((c as u32) - 32) as char } else { c }
}

/// `c` with an ASCII upper-case letter turned into its lower-case form.
pub open spec fn ascii_lower_char(c: char) -> char {
    if is_ascii_upper(c) { ((c as u32) + 32) as char } else { c }
}

/// `s` with every ASCII lower-case letter upper-cased, all else kept.
pub open spec fn ascii_uppercase(s: Seq<char>) -> Seq<char> {
    s.map_values(|c: char| ascii_upper_char(c))
}

/// `s` with every ASCII upper-case letter lower-cased, all else kept.
pub open spec fn ascii_lowercase(s: Seq<char>) -> Seq<char> {
    s.map_values(|c: char| ascii_lower_char(c))
}

/// Upper-casing an ASCII character gives an ASCII character that is no
/// lower-case letter and that upper-casing leaves alone; lower-casing first
/// changes nothing about the upper-case form.
pub proof fn lemma_ascii_upper_char(c: char)
    ensures
        (c as u32) < 128 ==> (ascii_upper_char(c) as u32) < 128,
        !is_ascii_lower(ascii_upper_char(c)),
        ascii_upper_char(ascii_upper_char(c)) == ascii_upper_char(c),
        ascii_upper_char(ascii_lower_char(c)) == ascii_upper_char(c),
        (c as u32) < 128 ==> (ascii_lower_char(c) as u32) < 128,
{
}

/// Name for the result of `str::to_uppercase`: the Unicode upper-case mapping
/// of a character sequence.
pub uninterp spec fn uppercase(s: Seq<char>) -> Seq<char>;

/// `a == b` on string slices (`<str as PartialEq>::eq`): the two slices hold
/// the same characters.
#[verifier::external_body]
pub(crate) fn str_eq(a: &str, b: &str) -> (res: bool)
    ensures
        res == (a@ == b@),
{
    a == b
}

/// `str::to_uppercase`. The result is the named mapping [`uppercase`] of the
/// argument. For ASCII text the mapping is the ASCII one, as std documents
/// (`a`–`z` become `A`–`Z`, every other character is kept); for other text
/// nothing more is stated.
#[verifier::external_body]
pub(crate) fn to_uppercase(s: &str) -> (res: String)
    ensures
        res@ == uppercase(s@),
        is_ascii_chars(s@) ==> res@ == ascii_uppercase(s@),
{
    s.to_uppercase()
}

/// `str::contains` with a string pattern: `true` exactly when `needle`
/// matches a sub-slice of `hay`.
#[verifier::external_body]
pub(crate) fn str_contains(hay: &str, needle: &str) -> (res: bool)
    ensures
        res == contains_run(hay@, needle@),
{
    hay.contains(needle)
}

/// `String::from_utf8` on a copy of `bytes`: succeeds exactly when the bytes
/// are well-formed UTF-8, and then holds the characters they encode.
#[verifier::external_body]
pub(crate) fn utf8_string(bytes: &[u8]) -> (res: Option<String>)
    ensures
        res.is_some() <==> valid_utf8(bytes@),
        res matches Some(s) ==> s@ == decode_utf8(bytes@),
{
    String::from_utf8(bytes.to_vec()).ok()
}

/// `a` followed by `b`, as a new `String`.
pub fn concat(a: &str, b: &str) -> (res: String)
    ensures
        res@ == a@ + b@,
{
    let mut res = String::new();
    res.append(a);
    res.append(b);
    res
}

/// Name for what `<str as Debug>::fmt` writes for a string: the string in
/// double quotes with its special characters escaped.
pub uninterp spec fn debug_quoted(s: Seq<char>) -> Seq<char>;

/// `format!("{:?}", s)` for a string slice: the result is the named
/// rendering [`debug_quoted`] of `s`.
#[verifier::external_body]
pub(crate) fn debug_text(s: &str) -> (res: String)
    ensures
        res@ == debug_quoted(s@),
{
    format!("{:?}", s)
}

/// A new `String` holding the characters of `s`.
pub fn owned(s: &str) -> (res: String)
    ensures
        res@ == s@,
{
    let mut res = String::new();
    res.append(s);
    res
}

} // verus!
