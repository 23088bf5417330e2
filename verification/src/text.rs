//! Text building blocks: decimal numbers and comparisons of names and lines.

use vstd::prelude::*;
use vstd::string::*;

verus! {

/// The character that is written for the digit `d`, for `0 <= d <= 9`.
pub open spec fn digit_char(d: int) -> char {
    "0123456789"@[d]
}

/// The decimal digits of `n`, most significant first, without leading zeros.
pub open spec fn decimal_nat(n: nat) -> Seq<char>
    decreases n,
{
    if n < 10 {
        seq![digit_char(n as int)]
    } else {
        decimal_nat(n / 10).push(digit_char((n % 10) as int))
    }
}

/// The decimal writing of `i`: a minus sign for a negative number, then the
/// digits of its magnitude.
pub open spec fn decimal(i: int) -> Seq<char> {
    if i < 0 {
        seq!['-'] + decimal_nat((-i) as nat)
    } else {
        decimal_nat(i as nat)
    }
}

/// The one-character text of a digit.
fn digit_str(d: u32) -> (s: &'static str)
    requires
        d < 10,
    ensures
        s@ == seq![digit_char(d as int)],
{
    let digits: &'static str = "0123456789";
    proof {
        reveal_strlit("0123456789");
    }
    let s = digits.substring_ascii(d as usize, d as usize + 1);
    assert(s@ =~= seq![digit_char(d as int)]);
    s
}

/// Appends the decimal digits of `n` to `out`.
fn push_decimal(out: &mut String, n: u32)
    ensures
        final(out)@ == old(out)@ + decimal_nat(n as nat),
    decreases n,
{
    if n >= 10 {
        push_decimal(out, n / 10);
    }
    out.append(digit_str(n % 10));
}

/// Writes `i` in decimal.
pub fn decimal_string(i: i32) -> (s: String)
    ensures
        s@ == decimal(i as int),
{
    let mut s = String::new();
    let wide: i64 = i as i64;
    if wide < 0 {
        proof {
            reveal_strlit("-");
        }
        s.append("-");
        push_decimal(&mut s, (0 - wide) as u32);
    } else {
        push_decimal(&mut s, wide as u32);
    }
    s
}

/// An ASCII capital letter as its small letter; any other character as it is.
pub open spec fn ascii_lower(c: char) -> char {
    if 'A' <= c && c <= 'Z' {
        ((c as u8 + 32) as u8) as char
    } else {
        c
    }
}

/// Two texts are the same but for the case of their ASCII letters.
pub open spec fn eq_ignoring_ascii_case(a: Seq<char>, b: Seq<char>) -> bool {
    &&& a.len() == b.len()
    &&& forall|i: int| 0 <= i < a.len() ==> ascii_lower(#[trigger] a[i]) == ascii_lower(b[i])
}

/// `needle` stands in `hay` from position `at` on.
pub open spec fn occurs_at(needle: Seq<char>, hay: Seq<char>, at: int) -> bool {
    &&& 0 <= at
    &&& at + needle.len() <= hay.len()
    &&& hay.subrange(at, at + needle.len()) == needle
}

/// `needle` stands somewhere in `hay` as a run of consecutive characters.
pub open spec fn occurs_in(needle: Seq<char>, hay: Seq<char>) -> bool {
    exists|at: int| occurs_at(needle, hay, at)
}

/// The lowercase form that `str::to_lowercase` gives a text: every character
/// replaced by its Unicode lowercase mapping, which may be several characters
/// long and depends on the characters around it.
pub uninterp spec fn lowercase_of(text: Seq<char>) -> Seq<char>;

/// Calls `str::to_lowercase`. Trusted: the result is the Unicode lowercase
/// form of the argument, a function of the text alone.
#[verifier::external_body]
pub(crate) fn to_lowercase(text: &str) -> (lowered: String)
    ensures
        lowered@ == lowercase_of(text@),
{
    text.to_lowercase()
}

/// Calls `str::contains` with a text as the pattern. Trusted: the result
/// tells whether the pattern matches a run of consecutive characters of `hay`.
#[verifier::external_body]
pub(crate) fn contains(hay: &str, needle: &str) -> (found: bool)
    ensures
        found == occurs_in(needle@, hay@),
{
    hay.contains(needle)
}

/// Calls `str::eq_ignore_ascii_case`. Trusted: the result tells whether the
/// two texts are equal once the ASCII capital letters of both are made small.
#[verifier::external_body]
pub(crate) fn eq_ignore_ascii_case(a: &str, b: &str) -> (same: bool)
    ensures
        same == eq_ignoring_ascii_case(a@, b@),
{
    a.eq_ignore_ascii_case(b)
}

} // verus!
