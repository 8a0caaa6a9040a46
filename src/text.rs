//! Text helpers: joining fragments with a delimiter and capitalising the first letter.

use vstd::prelude::*;

verus! {

/// What `char::to_uppercase` yields for a character (Unicode's full uppercase mapping).
pub uninterp spec fn upper_of(c: char) -> Seq<char>;

/// The fragments joined, with `delim` between each neighbouring pair.
pub open spec fn join(parts: Seq<Seq<char>>, delim: Seq<char>) -> Seq<char>
    decreases parts.len(),
{
    if parts.len() == 0 {
        Seq::empty()
    } else if parts.len() == 1 {
        parts[0]
    } else {
        join(parts.drop_last(), delim) + delim + parts.last()
    }
}

/// The text with its first character uppercased; the empty text stays empty.
pub open spec fn capitalized(s: Seq<char>) -> Seq<char> {
    if s.len() == 0 {
        s
    } else {
        upper_of(s[0]) + s.subrange(1, s.len() as int)
    }
}

/// Each fragment capitalised when `camel` is set, unchanged otherwise.
pub open spec fn styled(parts: Seq<Seq<char>>, camel: bool) -> Seq<Seq<char>> {
    if camel {
        Seq::new(parts.len(), |i: int| capitalized(parts[i]))
    } else {
        parts
    }
}

/// One of the characters `0` to `9`.
pub open spec fn is_ascii_digit(c: char) -> bool {
    '0' <= c && c <= '9'
}

/// Relies on `char::to_uppercase`, collected into a `String`.
#[verifier::external_body]
fn char_to_uppercase(c: char) -> (r: String)
    ensures
        r@ == upper_of(c),
{
    c.to_uppercase().collect::<String>()
}

/// Relies on `String::push`: appends one character at the end.
#[verifier::external_body]
pub(crate) fn push_char(s: &mut String, c: char)
    ensures
        final(s)@ == old(s)@.push(c),
{
    s.push(c)
}

/// Uppercases the first character of `s` and keeps the rest as it is.
pub fn uppercase_first_letter(s: &str) -> (r: String)
    ensures
        r@ == capitalized(s@),
{
    let n = s.unicode_len();
    if n == 0 {
        String::new()
    } else {
        let first = s.get_char(0);
        let mut out = char_to_uppercase(first);
        let rest = s.substring_char(1, n);
        out.append(rest);
        out
    }
}

/// The decimal digit character for `d`.
pub fn digit_char(d: u32) -> (r: char)
    requires
        d < 10,
    ensures
        r as u32 == 48 + d,
        is_ascii_digit(r),
{
    let b: u8 = 48u8 + d as u8;
    b as char
}

} // verus!
