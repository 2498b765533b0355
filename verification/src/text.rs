//! Characters and strings: the character classes the scanner tells apart,
//! and the few string operations the rest of the library builds on.

use vstd::prelude::*;

verus! {

/// The code point of a character.
pub open spec fn code_point(c: char) -> int {
    c as u32 as int
}

/// The characters that carry Unicode's `White_Space` property.
pub open spec fn is_whitespace_spec(c: char) -> bool {
    let n = code_point(c);
    ||| 0x09 <= n <= 0x0d
    ||| n == 0x20
    ||| n == 0x85
    ||| n == 0xa0
    ||| n == 0x1680
    ||| 0x2000 <= n <= 0x200a
    ||| n == 0x2028
    ||| n == 0x2029
    ||| n == 0x202f
    ||| n == 0x205f
    ||| n == 0x3000
}

/// Whether `c` is white space.
#[verifier::when_used_as_spec(is_whitespace_spec)]
pub fn is_whitespace(c: char) -> (r: bool)
    ensures
        r == is_whitespace_spec(c),
{
    let n: u32 = c as u32;
    (0x09 <= n && n <= 0x0d) || n == 0x20 || n == 0x85 || n == 0xa0 || n == 0x1680 || (0x2000 <= n
        && n <= 0x200a) || n == 0x2028 || n == 0x2029 || n == 0x202f || n == 0x205f || n == 0x3000
}

/// The letters `a` to `z` and `A` to `Z`.
pub open spec fn is_ascii_letter_spec(c: char) -> bool {
    ('a' <= c && c <= 'z') || ('A' <= c && c <= 'Z')
}

/// Whether `c` is one of the letters `a` to `z` and `A` to `Z`.
#[verifier::when_used_as_spec(is_ascii_letter_spec)]
pub fn is_ascii_letter(c: char) -> (r: bool)
    ensures
        r == is_ascii_letter_spec(c),
{
    ('a' <= c && c <= 'z') || ('A' <= c && c <= 'Z')
}

/// The digits `0` to `9`.
pub open spec fn is_digit_spec(c: char) -> bool {
    '0' <= c && c <= '9'
}

/// Whether `c` is one of the digits `0` to `9`.
#[verifier::when_used_as_spec(is_digit_spec)]
pub fn is_digit(c: char) -> (r: bool)
    ensures
        r == is_digit_spec(c),
{
    '0' <= c && c <= '9'
}

/// The letters, digits and the period: what a word is made of.
pub open spec fn is_word_char_spec(c: char) -> bool {
    is_ascii_letter(c) || is_digit(c) || c == '.'
}

/// Whether `c` is a letter, a digit or the period.
#[verifier::when_used_as_spec(is_word_char_spec)]
pub fn is_word_char(c: char) -> (r: bool)
    ensures
        r == is_word_char_spec(c),
{
    is_ascii_letter(c) || is_digit(c) || c == '.'
}

/// The twelve special symbols of the language.
pub open spec fn is_special_symbol_spec(c: char) -> bool {
    c == '#' || c == ';' || c == '{' || c == '}' || c == '(' || c == ')' || c == ':' || c == ','
        || c == '=' || c == '+' || c == '*' || c == '@'
}

/// Whether `c` is one of the twelve special symbols.
#[verifier::when_used_as_spec(is_special_symbol_spec)]
pub fn is_special_symbol(c: char) -> (r: bool)
    ensures
        r == is_special_symbol_spec(c),
{
    c == '#' || c == ';' || c == '{' || c == '}' || c == '(' || c == ')' || c == ':' || c == ','
        || c == '=' || c == '+' || c == '*' || c == '@'
}

/// What ends a lexeme: white space or a special symbol.
pub open spec fn is_separator_spec(c: char) -> bool {
    is_whitespace(c) || is_special_symbol(c)
}

/// Whether `c` ends a lexeme.
#[verifier::when_used_as_spec(is_separator_spec)]
pub fn is_separator(c: char) -> (r: bool)
    ensures
        r == is_separator_spec(c),
{
    is_whitespace(c) || is_special_symbol(c)
}

/// What `char::is_alphabetic` answers for `c`: whether `c` carries
/// Unicode's `Alphabetic` property.
pub uninterp spec fn unicode_alphabetic(c: char) -> bool;

/// Calls `char::is_alphabetic`. The answer depends on the character alone;
/// nothing more is claimed of it than that it is the value named
/// `unicode_alphabetic`.
#[verifier::external_body]
pub(crate) fn is_alphabetic(c: char) -> (r: bool)
    ensures
        r == unicode_alphabetic(c),
{
    c.is_alphabetic()
}

/// Calls `String::push`, which appends one character to the end of the
/// string and leaves the rest as it was.
#[verifier::external_body]
pub(crate) fn push_char(s: &mut String, c: char)
    ensures
        final(s)@ == old(s)@.push(c),
{
    s.push(c)
}

/// The decimal digit for `d`.
pub open spec fn digit_char(d: int) -> char
    recommends
        0 <= d <= 9,
{
    (d + 48) as char
}

/// The decimal numeral of `n`, without leading zeros.
pub open spec fn decimal(n: nat) -> Seq<char>
    decreases n,
{
    if n < 10 {
        seq![digit_char(n as int)]
    } else {
        decimal(n / 10).push(digit_char((n % 10) as int))
    }
}

/// Writes `n` as a decimal numeral.
pub fn u8_to_decimal(n: u8) -> (s: String)
    ensures
        s@ == decimal(n as nat),
{
    let mut s = String::new();
    if n >= 100 {
        push_char(&mut s, ((n / 100) + 48) as char);
    }
    if n >= 10 {
        push_char(&mut s, (((n / 10) % 10) + 48) as char);
    }
    push_char(&mut s, ((n % 10) + 48) as char);
    proof {
        reveal_with_fuel(decimal, 3);
        assert(s@ =~= decimal(n as nat));
    }
    s
}

} // verus!
