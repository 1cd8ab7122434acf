//! Strings as sequences of characters.

use vstd::prelude::*;

verus! {

/// `String::push` of the standard library appends one character to the end of the string
/// and changes nothing else.
pub assume_specification[ String::push ](s: &mut String, c: char)
    ensures
        final(s)@ == old(s)@.push(c),
;

/// The characters of `s`, in order.
pub fn chars_of(s: &str) -> (chars: Vec<char>)
    ensures
        chars@ == s@,
{
    let mut chars: Vec<char> = Vec::new();
    for c in it: s.chars()
        invariant
            it.seq() == s@,
            chars@ == it.seq().take(it.index() as int),
    {
        chars.push(c);
    }
    chars
}

/// The lower-case form of an ASCII capital letter; any other character unchanged.
pub open spec fn ascii_lower(c: char) -> char {
    if 'A' <= c <= 'Z' {
        ((c as u8 - 'A' as u8 + 'a' as u8) as u8) as char
    } else {
        c
    }
}

/// `text` with each ASCII capital letter replaced by its lower-case form.
pub open spec fn ascii_lowercased(text: Seq<char>) -> Seq<char> {
    Seq::new(text.len(), |i: int| ascii_lower(text[i]))
}

/// A copy of `s` in which each ASCII capital letter is replaced by its lower-case form.
pub fn to_ascii_lowercase(s: &str) -> (lower: String)
    ensures
        lower@ == ascii_lowercased(s@),
{
    let mut lower = String::new();
    for c in it: s.chars()
        invariant
            it.seq() == s@,
            lower@ == ascii_lowercased(it.seq().take(it.index() as int)),
    {
        if 'A' <= c && c <= 'Z' {
            lower.push((c as u8 - 'A' as u8 + 'a' as u8) as char);
        } else {
            lower.push(c);
        }
    }
    lower
}

/// The string made of the characters of `chars` from index `from` up to `to`.
pub(crate) fn string_of(chars: &Vec<char>, from: usize, to: usize) -> (s: String)
    requires
        from <= to <= chars.len(),
    ensures
        s@ == chars@.subrange(from as int, to as int),
{
    let mut s = String::new();
    let mut i: usize = from;
    while i < to
        invariant
            from <= i <= to <= chars.len(),
            s@ == chars@.subrange(from as int, i as int),
        decreases to - i,
    {
        s.push(chars[i]);
        i += 1;
    }
    s
}

} // verus!
