//! Loosely typed generator options: names mapped to text, read as counts, flags or text,
//! with a default wherever a value is absent or does not parse.

use crate::text::is_ascii_digit;
use vstd::prelude::*;

verus! {

/// Option names mapped to their text values; a later entry for a name overrides earlier ones.
pub struct PatternOptions {
    pub entries: Vec<(String, String)>,
}

/// The value of the last entry named `key`, if any.
pub open spec fn lookup(entries: Seq<(String, String)>, key: Seq<char>) -> Option<Seq<char>>
    decreases entries.len(),
{
    if entries.len() == 0 {
        None
    } else if entries.last().0@ == key {
        Some(entries.last().1@)
    } else {
        lookup(entries.drop_last(), key)
    }
}

pub open spec fn digit_value(c: char) -> nat {
    (c as u32 - 48) as nat
}

pub open spec fn all_digits(s: Seq<char>) -> bool {
    forall|i: int| 0 <= i < s.len() ==> is_ascii_digit(#[trigger] s[i])
}

/// The number that a string of decimal digits denotes.
pub open spec fn decimal_value(s: Seq<char>) -> nat
    decreases s.len(),
{
    if s.len() == 0 {
        0
    } else {
        decimal_value(s.drop_last()) * 10 + digit_value(s.last())
    }
}

/// The text without one leading `+`.
pub open spec fn unsigned_digits(s: Seq<char>) -> Seq<char> {
    if s.len() > 0 && s[0] == '+' {
        s.drop_first()
    } else {
        s
    }
}

/// The `u32` that `s` spells as an optional `+` followed by decimal digits, if it fits.
pub open spec fn parsed_u32(s: Seq<char>) -> Option<u32> {
    let d = unsigned_digits(s);
    if d.len() > 0 && all_digits(d) && decimal_value(d) <= u32::MAX {
        Some(decimal_value(d) as u32)
    } else {
        None
    }
}

/// `true` and `false` spelled exactly so.
pub open spec fn parsed_bool(s: Seq<char>) -> Option<bool> {
    if s == seq!['t', 'r', 'u', 'e'] {
        Some(true)
    } else if s == seq!['f', 'a', 'l', 's', 'e'] {
        Some(false)
    } else {
        None
    }
}

/// A count option: its parsed value, or `default` when it is absent or does not parse.
pub open spec fn count_or(opts: PatternOptions, key: Seq<char>, default: u32) -> u32 {
    match opts.value_of(key) {
        Some(v) => match parsed_u32(v) {
            Some(n) => n,
            None => default,
        },
        None => default,
    }
}

/// A flag option: its parsed value, or `default` when it is absent or does not parse.
pub open spec fn flag_or(opts: PatternOptions, key: Seq<char>, default: bool) -> bool {
    match opts.value_of(key) {
        Some(v) => match parsed_bool(v) {
            Some(b) => b,
            None => default,
        },
        None => default,
    }
}

/// A text option: its value, or `default` when it is absent.
pub open spec fn text_or(opts: PatternOptions, key: Seq<char>, default: Seq<char>) -> Seq<char> {
    match opts.value_of(key) {
        Some(v) => v,
        None => default,
    }
}

proof fn lemma_decimal_prefix_le(s: Seq<char>, k: int)
    requires
        0 <= k <= s.len(),
    ensures
        decimal_value(s.subrange(0, k)) <= decimal_value(s),
    decreases s.len(),
{
    if k < s.len() {
        lemma_decimal_prefix_le(s.drop_last(), k);
        assert(s.drop_last().subrange(0, k) =~= s.subrange(0, k));
    } else {
        assert(s.subrange(0, k) =~= s);
    }
}

/// Reads `s` as a `u32` in the way `u32::from_str` does: an optional `+`, then one or more
/// decimal digits whose value fits.
pub fn parse_u32(s: &str) -> (r: Option<u32>)
    ensures
        r == parsed_u32(s@),
{
    let n = s.unicode_len();
    let mut start: usize = 0;
    if n > 0 && s.get_char(0) == '+' {
        start = 1;
    }
    let ghost d = unsigned_digits(s@);
    assert(d =~= s@.subrange(start as int, n as int));
    if start == n {
        return None;
    }
    let mut i: usize = start;
    let mut val: u64 = 0;
    while i < n
        invariant
            start <= i <= n,
            n == s@.len(),
            d == s@.subrange(start as int, n as int),
            d == unsigned_digits(s@),
            val == decimal_value(s@.subrange(start as int, i as int)),
            val <= u32::MAX,
            all_digits(s@.subrange(start as int, i as int)),
        decreases n - i,
    {
        let c = s.get_char(i);
        if !('0' <= c && c <= '9') {
            assert(d[i - start] == c);
            assert(!is_ascii_digit(d[i - start]));
            return None;
        }
        let ghost prev = s@.subrange(start as int, i as int);
        let ghost next = s@.subrange(start as int, i + 1);
        assert(next.drop_last() =~= prev);
        assert(next.last() == c);
        assert(decimal_value(next) == decimal_value(prev) * 10 + digit_value(c));
        val = val * 10 + (c as u32 - 48) as u64;
        assert(val == decimal_value(next));
        assert(all_digits(next)) by {
            assert forall|j: int| 0 <= j < next.len() implies is_ascii_digit(#[trigger] next[j]) by {
                if j < prev.len() {
                    assert(next[j] == prev[j]);
                }
            }
        }
        if val > 0xffff_ffffu64 {
            proof {
                lemma_decimal_prefix_le(d, i + 1 - start);
                assert(d.subrange(0, i + 1 - start) =~= next);
            }
            return None;
        }
        i = i + 1;
    }
    assert(s@.subrange(start as int, n as int) =~= d);
    Some(val as u32)
}

/// Reads `s` as a `bool` in the way `bool::from_str` does: exactly `true` or `false`.
pub fn parse_bool(s: &str) -> (r: Option<bool>)
    ensures
        r == parsed_bool(s@),
{
    let n = s.unicode_len();
    if n == 4 && s.get_char(0) == 't' && s.get_char(1) == 'r' && s.get_char(2) == 'u'
        && s.get_char(3) == 'e' {
        assert(s@ =~= seq!['t', 'r', 'u', 'e']);
        Some(true)
    } else if n == 5 && s.get_char(0) == 'f' && s.get_char(1) == 'a' && s.get_char(2) == 'l'
        && s.get_char(3) == 's' && s.get_char(4) == 'e' {
        assert(s@ =~= seq!['f', 'a', 'l', 's', 'e']);
        Some(false)
    } else {
        proof {
            if s@ == seq!['t', 'r', 'u', 'e'] {
                assert(s@[0] == 't' && s@[1] == 'r' && s@[2] == 'u' && s@[3] == 'e');
            }
            if s@ == seq!['f', 'a', 'l', 's', 'e'] {
                assert(s@[0] == 'f' && s@[1] == 'a' && s@[2] == 'l' && s@[3] == 's');
                assert(s@[4] == 'e');
            }
        }
        None
    }
}

impl PatternOptions {
    /// The value given for `key`, if any.
    pub open spec fn value_of(&self, key: Seq<char>) -> Option<Seq<char>> {
        lookup(self.entries@, key)
    }

    /// No options at all.
    pub fn new() -> (r: PatternOptions)
        ensures
            forall|k: Seq<char>| r.value_of(k) is None,
    {
        PatternOptions { entries: Vec::new() }
    }

    /// These options with `key` set to `value`.
    pub fn with(self, key: &str, value: &str) -> (r: PatternOptions)
        ensures
            r.value_of(key@) == Some(value@),
            forall|k: Seq<char>| k != key@ ==> r.value_of(k) == self.value_of(k),
    {
        let mut entries = self.entries;
        let ghost before = entries@;
        entries.push((String::from_str(key), String::from_str(value)));
        assert(entries@.drop_last() =~= before);
        PatternOptions { entries }
    }

    /// The value given for `key`, if any.
    pub fn get(&self, key: &str) -> (r: Option<String>)
        ensures
            r matches Some(v) ==> self.value_of(key@) == Some(v@),
            r is None ==> self.value_of(key@) is None,
    {
        let wanted = String::from_str(key);
        assert(self.entries@.subrange(0, self.entries@.len() as int) =~= self.entries@);
        let mut i: usize = self.entries.len();
        while i > 0
            invariant
                i <= self.entries@.len(),
                wanted@ == key@,
                lookup(self.entries@, key@) == lookup(self.entries@.subrange(0, i as int), key@),
            decreases i,
        {
            let ghost prefix = self.entries@.subrange(0, i as int);
            if self.entries[i - 1].0 == wanted {
                return Some(self.entries[i - 1].1.clone());
            }
            assert(prefix.drop_last() =~= self.entries@.subrange(0, i - 1));
            i = i - 1;
        }
        None
    }

    /// The count given for `key`, or `default` when it is absent or does not parse.
    pub fn resolve_count(&self, key: &str, default: u32) -> (r: u32)
        ensures
            r == count_or(*self, key@, default),
    {
        match self.get(key) {
            Some(v) => match parse_u32(v.as_str()) {
                Some(n) => n,
                None => default,
            },
            None => default,
        }
    }

    /// The flag given for `key`, or `default` when it is absent or does not parse.
    pub fn resolve_flag(&self, key: &str, default: bool) -> (r: bool)
        ensures
            r == flag_or(*self, key@, default),
    {
        match self.get(key) {
            Some(v) => match parse_bool(v.as_str()) {
                Some(b) => b,
                None => default,
            },
            None => default,
        }
    }

    /// The text given for `key`, or `default` when it is absent.
    pub fn resolve_text(&self, key: &str, default: &str) -> (r: String)
        ensures
            r@ == text_or(*self, key@, default@),
    {
        match self.get(key) {
            Some(v) => v,
            None => String::from_str(default),
        }
    }
}

} // verus!
