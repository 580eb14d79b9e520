//! Text operations of the standard library that the rest of the crate relies
//! on, each with a statement of what it returns.

use vstd::prelude::*;

verus! {

/// Whether `c` is white space: one of the characters that Unicode marks as
/// `White_Space`.
pub open spec fn is_white_space(c: char) -> bool {
    let n = c as u32;
    ||| 0x09 <= n <= 0x0D
    ||| n == 0x20
    ||| n == 0x85
    ||| n == 0xA0
    ||| n == 0x1680
    ||| 0x2000 <= n <= 0x200A
    ||| n == 0x2028
    ||| n == 0x2029
    ||| n == 0x202F
    ||| n == 0x205F
    ||| n == 0x3000
}

/// The number of white-space characters at the start of `s`.
pub open spec fn leading_white_space(s: Seq<char>) -> nat
    decreases s.len(),
{
    if s.len() == 0 || !is_white_space(s[0]) {
        0
    } else {
        1 + leading_white_space(s.drop_first())
    }
}

/// The number of white-space characters at the end of `s`.
pub open spec fn trailing_white_space(s: Seq<char>) -> nat
    decreases s.len(),
{
    if s.len() == 0 || !is_white_space(s.last()) {
        0
    } else {
        1 + trailing_white_space(s.drop_last())
    }
}

/// `s` without the white space at its start and at its end.
pub open spec fn trimmed(s: Seq<char>) -> Seq<char> {
    let rest = s.skip(leading_white_space(s) as int);
    rest.take(rest.len() - trailing_white_space(rest))
}

/// Whether `needle` occurs in `haystack` as a run of consecutive characters.
pub open spec fn occurs_in(needle: Seq<char>, haystack: Seq<char>) -> bool {
    exists|i: int|
        0 <= i <= haystack.len() - needle.len() && #[trigger] haystack.subrange(
            i,
            i + needle.len(),
        ) == needle
}

/// The character for the digit `d`.
pub open spec fn digit(d: nat) -> char {
    ((48 + d) as u8) as char
}

/// `n` written in decimal digits, without sign or leading zeros.
pub open spec fn decimal(n: nat) -> Seq<char>
    decreases n,
{
    if n < 10 {
        seq![digit(n)]
    } else {
        decimal(n / 10).push(digit(n % 10))
    }
}

/// Trusted: `str::trim` returns the part of the text between its leading and
/// its trailing white space, where white space is what [`is_white_space`] lists.
#[verifier::external_body]
pub(crate) fn trim<'a>(s: &'a str) -> (r: &'a str)
    ensures
        r@ == trimmed(s@),
{
    s.trim()
}

/// Trusted: `str::contains` with a text as its pattern says whether that text
/// occurs in the string.
#[verifier::external_body]
pub(crate) fn contains(haystack: &str, needle: &str) -> (r: bool)
    ensures
        r == occurs_in(needle@, haystack@),
{
    haystack.contains(needle)
}

/// Trusted: `str::starts_with` with a text as its pattern says whether the
/// string begins with that text.
#[verifier::external_body]
pub(crate) fn starts_with(s: &str, prefix: &str) -> (r: bool)
    ensures
        r == prefix@.is_prefix_of(s@),
{
    s.starts_with(prefix)
}

/// Trusted: `to_string` on an unsigned integer writes it in decimal digits.
#[verifier::external_body]
pub(crate) fn decimal_string(n: u64) -> (r: String)
    ensures
        r@ == decimal(n as nat),
{
    n.to_string()
}

} // verus!
