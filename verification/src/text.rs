//! Character-level operations on strings.
//!
//! Every offset in this module counts characters, never bytes.

use vstd::prelude::*;
use vstd::string::*;

verus! {

/// `String::push` of the standard library: it appends one character to the
/// end of the string.
pub assume_specification[ String::push ](s: &mut String, ch: char)
    ensures
        final(s)@ == old(s)@.push(ch),
;

/// The document that a list of strings holds: each line as the sequence of
/// its characters.
pub open spec fn lines_view(lines: Seq<String>) -> Seq<Seq<char>> {
    lines.map_values(|s: String| s@)
}

/// The number of characters of `s`.
pub fn char_count(s: &String) -> (n: usize)
    ensures
        n == s@.len(),
{
    s.as_str().unicode_len()
}

/// The character at offset `i`.
pub fn char_at(s: &String, i: usize) -> (c: char)
    requires
        i < s@.len(),
    ensures
        c == s@[i as int],
{
    s.as_str().get_char(i)
}

/// The characters of `s` from offset `from` up to, not including, `to`.
pub fn slice(s: &String, from: usize, to: usize) -> (r: String)
    requires
        from <= to <= s@.len(),
    ensures
        r@ == s@.subrange(from as int, to as int),
{
    String::from_str(s.as_str().substring_char(from, to))
}

/// `s` with the character `c` inserted before offset `at`.
pub fn insert_char(s: &String, at: usize, c: char) -> (r: String)
    requires
        at <= s@.len(),
    ensures
        r@ == s@.insert(at as int, c),
{
    let n = char_count(s);
    let mut r = slice(s, 0, at);
    r.push(c);
    r.append(s.as_str().substring_char(at, n));
    r
}

/// `s` without the character at offset `at`.
pub fn remove_char(s: &String, at: usize) -> (r: String)
    requires
        at < s@.len(),
    ensures
        r@ == s@.remove(at as int),
{
    let n = char_count(s);
    let mut r = slice(s, 0, at);
    r.append(s.as_str().substring_char(at + 1, n));
    r
}

/// The text `s` with `inner` inserted before offset `at`.
pub open spec fn spliced(s: Seq<char>, at: int, inner: Seq<char>) -> Seq<char> {
    s.subrange(0, at) + inner + s.subrange(at, s.len() as int)
}

/// `s` with the text `inner` inserted before offset `at`.
pub fn insert_text(s: &String, at: usize, inner: &String) -> (r: String)
    requires
        at <= s@.len(),
    ensures
        r@ == spliced(s@, at as int, inner@),
{
    let n = char_count(s);
    let mut r = slice(s, 0, at);
    r.append(inner.as_str());
    r.append(s.as_str().substring_char(at, n));
    r
}

/// Tells whether `s` holds exactly the characters of `literal`.
pub fn text_is(s: &String, literal: &str) -> (r: bool)
    ensures
        r == (s@ == literal@),
{
    let other = String::from_str(literal);
    *s == other
}

} // verus!
