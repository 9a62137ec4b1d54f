//! Text as sequences of characters: conversions between `String` and
//! `Vec<char>`, and the searches the rest of the library is built on.

use vstd::prelude::*;

verus! {

/// `String::push` appends one character to the end of the string.
pub assume_specification[ String::push ](s: &mut String, ch: char)
    ensures
        final(s)@ == old(s)@.push(ch),
;

/// `needle` stands in `hay` at offset `at`.
pub open spec fn occurs_at(hay: Seq<char>, needle: Seq<char>, at: int) -> bool {
    &&& 0 <= at
    &&& at + needle.len() <= hay.len()
    &&& hay.subrange(at, at + needle.len()) == needle
}

/// `needle` stands somewhere in `hay`. The empty needle stands in every text.
pub open spec fn occurs_in(hay: Seq<char>, needle: Seq<char>) -> bool {
    exists|at: int| occurs_at(hay, needle, at)
}

/// `hay` ends with `suffix`.
pub open spec fn has_suffix(hay: Seq<char>, suffix: Seq<char>) -> bool {
    occurs_at(hay, suffix, hay.len() - suffix.len())
}

/// The characters of `s`, in order.
pub fn chars_of(s: &str) -> (out: Vec<char>)
    ensures
        out@ == s@,
{
    let mut out: Vec<char> = Vec::new();
    for c in it: s.chars()
        invariant
            it.seq() == s@,
            out@ == s@.take(it.index() as int),
    {
        out.push(c);
    }
    assert(out@ == s@);
    out
}

/// The string made of the characters of `chars`, in order.
pub fn string_of(chars: &[char]) -> (out: String)
    ensures
        out@ == chars@,
{
    let mut out = String::new();
    let mut i: usize = 0;
    while i < chars.len()
        invariant
            i <= chars.len(),
            out@ == chars@.take(i as int),
        decreases chars.len() - i,
    {
        out.push(chars[i]);
        i += 1;
    }
    assert(out@ == chars@);
    out
}

/// Appends the characters of `tail` to `out`.
pub fn extend_chars(out: &mut Vec<char>, tail: &[char])
    ensures
        final(out)@ == old(out)@ + tail@,
{
    let ghost before = out@;
    let mut i: usize = 0;
    while i < tail.len()
        invariant
            i <= tail.len(),
            out@ == before + tail@.take(i as int),
        decreases tail.len() - i,
    {
        out.push(tail[i]);
        i += 1;
    }
    assert(tail@.take(tail.len() as int) == tail@);
}

/// Whether `needle` stands in `hay` at offset `at`.
pub fn matches_at(hay: &[char], needle: &[char], at: usize) -> (found: bool)
    ensures
        found == occurs_at(hay@, needle@, at as int),
{
    if at > hay.len() || needle.len() > hay.len() - at {
        return false;
    }
    let mut i: usize = 0;
    while i < needle.len()
        invariant
            i <= needle.len(),
            at + needle.len() <= hay.len(),
            forall|k: int| 0 <= k < i ==> hay@[at + k] == needle@[k],
        decreases needle.len() - i,
    {
        if hay[at + i] != needle[i] {
            assert(hay@.subrange(at as int, at + needle.len())[i as int] != needle@[i as int]);
            return false;
        }
        i += 1;
    }
    assert(hay@.subrange(at as int, at + needle.len()) =~= needle@);
    true
}

/// Whether `needle` stands somewhere in `hay`.
pub fn contains(hay: &[char], needle: &[char]) -> (found: bool)
    ensures
        found == occurs_in(hay@, needle@),
{
    let mut at: usize = 0;
    while at < hay.len()
        invariant
            at <= hay.len(),
            forall|k: int| 0 <= k < at ==> !occurs_at(hay@, needle@, k),
        decreases hay.len() - at,
    {
        if matches_at(hay, needle, at) {
            return true;
        }
        at += 1;
    }
    matches_at(hay, needle, at)
}

/// Whether the text `needle` stands somewhere in the text `hay`.
pub fn str_contains(hay: &str, needle: &str) -> (found: bool)
    ensures
        found == occurs_in(hay@, needle@),
{
    let h = chars_of(hay);
    let n = chars_of(needle);
    contains(h.as_slice(), n.as_slice())
}

/// Whether `hay` ends with `suffix`.
pub fn ends_with(hay: &[char], suffix: &[char]) -> (found: bool)
    ensures
        found == has_suffix(hay@, suffix@),
{
    if suffix.len() > hay.len() {
        return false;
    }
    matches_at(hay, suffix, hay.len() - suffix.len())
}

/// Whether the character `c` occurs in `hay`.
pub fn contains_char(hay: &[char], c: char) -> (found: bool)
    ensures
        found == hay@.contains(c),
{
    let mut i: usize = 0;
    while i < hay.len()
        invariant
            i <= hay.len(),
            forall|k: int| 0 <= k < i ==> hay@[k] != c,
        decreases hay.len() - i,
    {
        if hay[i] == c {
            return true;
        }
        i += 1;
    }
    false
}

} // verus!
