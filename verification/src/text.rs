//! Text primitives that the generator builds on.
//!
//! The first part binds four functions of the standard library. Each binding
//! is trusted: its body is the call, and its contract records what the call
//! is documented to do, or gives the result a name where the documentation
//! refers to the Unicode tables. The rest of the module is verified against
//! those contracts.

use vstd::prelude::*;

verus! {

/// Whether a character is white space: what `char::is_whitespace` answers,
/// which goes by the Unicode property `White_Space`.
pub uninterp spec fn is_white_space(c: char) -> bool;

/// The lower-case mapping that `char::to_lowercase` yields for a character,
/// as the one or more characters the Unicode tables give.
pub uninterp spec fn lowercased(c: char) -> Seq<char>;

/// Binding of `str::eq`. Trusted: two texts compare equal exactly when they
/// hold the same characters.
#[verifier::external_body]
pub(crate) fn str_eq(a: &str, b: &str) -> (r: bool)
    ensures
        r == (a@ == b@),
{
    a == b
}

/// Binding of `char::is_whitespace`. Trusted: the answer is named by
/// [`is_white_space`]; nothing else is claimed of it.
#[verifier::external_body]
pub(crate) fn is_whitespace(c: char) -> (r: bool)
    ensures
        r == is_white_space(c),
{
    c.is_whitespace()
}

/// Binding of `char::to_lowercase`, collected into a `String`. Trusted: the
/// characters are named by [`lowercased`]; nothing else is claimed of them.
#[verifier::external_body]
pub(crate) fn lowercase(c: char) -> (r: String)
    ensures
        r@ == lowercased(c),
{
    c.to_lowercase().collect()
}

/// Binding of `str::strip_suffix` for a text suffix. Trusted: when `s` ends
/// with `suffix` the result is `s` without those last characters, and
/// otherwise there is no result.
#[verifier::external_body]
pub(crate) fn strip_suffix<'a>(s: &'a str, suffix: &str) -> (r: Option<&'a str>)
    ensures
        match r {
            Some(rest) => suffix@.is_suffix_of(s@) && rest@ == s@.subrange(
                0,
                s@.len() - suffix@.len(),
            ),
            None => !suffix@.is_suffix_of(s@),
        },
{
    s.strip_suffix(suffix)
}

/// Whether a text holds nothing but white space. The empty text does.
pub open spec fn is_blank(s: Seq<char>) -> bool {
    forall|i: int| 0 <= i < s.len() ==> is_white_space(#[trigger] s[i])
}

/// Tests whether a text holds nothing but white space.
pub fn blank(s: &str) -> (r: bool)
    ensures
        r == is_blank(s@),
{
    for c in it: s.chars()
        invariant
            it.seq() == s@,
            forall|i: int| 0 <= i < it.index() ==> is_white_space(#[trigger] s@[i]),
    {
        if !is_whitespace(c) {
            return false;
        }
    }
    true
}

/// The text `s` with its first character replaced by `head`; the empty text
/// stays empty.
pub open spec fn with_head(head: Seq<char>, s: Seq<char>) -> Seq<char> {
    if s.len() == 0 {
        Seq::empty()
    } else {
        head + s.subrange(1, s.len() as int)
    }
}

/// The text `s` with its first character in lower case.
pub open spec fn lowercase_first(s: Seq<char>) -> Seq<char> {
    if s.len() == 0 {
        Seq::empty()
    } else {
        with_head(lowercased(s[0]), s)
    }
}

/// Replaces the first character of `s` by `head`. An empty `s` gives the
/// empty text whatever `head` is.
pub fn replace_head(head: String, s: &str) -> (r: String)
    ensures
        r@ == with_head(head@, s@),
{
    let n = s.unicode_len();
    if n == 0 {
        String::new()
    } else {
        let mut out = head;
        out.append(s.substring_char(1, n));
        out
    }
}

/// Lower-cases the first character of `s` and keeps the rest as it is.
pub fn lowercase_first_letter(s: &str) -> (r: String)
    ensures
        r@ == lowercase_first(s@),
{
    if s.unicode_len() == 0 {
        String::new()
    } else {
        replace_head(lowercase(s.get_char(0)), s)
    }
}

/// The decimal digit that stands for a number below ten.
pub open spec fn digit(d: nat) -> Seq<char> {
    if d == 0 {
        "0"@
    } else if d == 1 {
        "1"@
    } else if d == 2 {
        "2"@
    } else if d == 3 {
        "3"@
    } else if d == 4 {
        "4"@
    } else if d == 5 {
        "5"@
    } else if d == 6 {
        "6"@
    } else if d == 7 {
        "7"@
    } else if d == 8 {
        "8"@
    } else {
        "9"@
    }
}

/// The decimal digit that stands for a number below ten.
fn digit_text(d: usize) -> (r: &'static str)
    requires
        d < 10,
    ensures
        r@ == digit(d as nat),
{
    if d == 0 {
        "0"
    } else if d == 1 {
        "1"
    } else if d == 2 {
        "2"
    } else if d == 3 {
        "3"
    } else if d == 4 {
        "4"
    } else if d == 5 {
        "5"
    } else if d == 6 {
        "6"
    } else if d == 7 {
        "7"
    } else if d == 8 {
        "8"
    } else {
        "9"
    }
}

/// A number written in decimal digits, without leading zeros.
pub open spec fn decimal(n: nat) -> Seq<char>
    decreases n,
{
    if n < 10 {
        digit(n)
    } else {
        decimal(n / 10) + digit(n % 10)
    }
}

/// Writes a number in decimal digits.
pub fn to_decimal(n: usize) -> (r: String)
    ensures
        r@ == decimal(n as nat),
    decreases n,
{
    if n < 10 {
        String::from_str(digit_text(n))
    } else {
        let mut out = to_decimal(n / 10);
        out.append(digit_text(n % 10));
        out
    }
}

} // verus!
