//! Text helpers shared by the modules that build messages and arguments.

use vstd::prelude::*;
use vstd::string::StringExecFns;

verus! {

/// What an integer looks like in decimal, least significant digit last,
/// without sign. Zero is the empty sequence here; `decimal_text` adds the
/// single `0`.
pub open spec fn decimal_digits(n: nat) -> Seq<char>
    decreases n,
{
    if n == 0 {
        Seq::empty()
    } else {
        decimal_digits(n / 10).push(digit_char(n % 10))
    }
}

/// The character of one decimal digit.
pub open spec fn digit_char(d: nat) -> char {
    if d == 0 {
        '0'
    } else if d == 1 {
        '1'
    } else if d == 2 {
        '2'
    } else if d == 3 {
        '3'
    } else if d == 4 {
        '4'
    } else if d == 5 {
        '5'
    } else if d == 6 {
        '6'
    } else if d == 7 {
        '7'
    } else if d == 8 {
        '8'
    } else {
        '9'
    }
}

/// The decimal text of an integer: an optional minus sign, then the digits
/// with no leading zero; `0` for zero.
pub open spec fn decimal_text(i: int) -> Seq<char> {
    if i == 0 {
        seq!['0']
    } else if i < 0 {
        seq!['-'] + decimal_digits((-i) as nat)
    } else {
        decimal_digits(i as nat)
    }
}

/// Calls `serde_json::Number::from` on a signed integer and `to_string` on
/// the number. serde_json prints an integer through `itoa`: the plain decimal
/// digits, with a leading minus sign for a negative value. Believed, not
/// proved.
#[verifier::external_body]
pub(crate) fn integer_text(i: i64) -> (res: String)
    ensures
        res@ == decimal_text(i as int),
{
    serde_json::Number::from(i).to_string()
}

/// Calls `serde_json::Number::from` on an unsigned integer and `to_string` on
/// the number: the plain decimal digits. Believed, not proved.
#[verifier::external_body]
pub(crate) fn unsigned_text(n: u64) -> (res: String)
    ensures
        res@ == decimal_text(n as int),
{
    serde_json::Number::from(n).to_string()
}

/// A text with every leading and every trailing occurrence of `c` removed.
pub open spec fn trimmed(s: Seq<char>, c: char) -> Seq<char> {
    trimmed_end(trimmed_start(s, c), c)
}

/// A text without its leading run of `c`.
pub open spec fn trimmed_start(s: Seq<char>, c: char) -> Seq<char>
    decreases s.len(),
{
    if s.len() > 0 && s[0] == c {
        trimmed_start(s.subrange(1, s.len() as int), c)
    } else {
        s
    }
}

/// A text without its trailing run of `c`.
pub open spec fn trimmed_end(s: Seq<char>, c: char) -> Seq<char>
    decreases s.len(),
{
    if s.len() > 0 && s[s.len() - 1] == c {
        trimmed_end(s.subrange(0, s.len() - 1), c)
    } else {
        s
    }
}

/// Calls `str::trim_matches` with a character as the pattern: std documents
/// that all prefixes and suffixes that match the pattern are removed,
/// repeatedly. Believed, not proved.
#[verifier::external_body]
pub(crate) fn trim_matches(s: &str, c: char) -> (res: String)
    ensures
        res@ == trimmed(s@, c),
{
    s.trim_matches(c).to_string()
}

/// The two texts joined.
pub fn join2(a: &str, b: &str) -> (res: String)
    ensures
        res@ == a@ + b@,
{
    String::from_str(a).concat(b)
}

/// The three texts joined.
pub fn join3(a: &str, b: &str, c: &str) -> (res: String)
    ensures
        res@ == a@ + b@ + c@,
{
    String::from_str(a).concat(b).concat(c)
}

/// The four texts joined.
pub fn join4(a: &str, b: &str, c: &str, d: &str) -> (res: String)
    ensures
        res@ == a@ + b@ + c@ + d@,
{
    String::from_str(a).concat(b).concat(c).concat(d)
}

} // verus!
