//! The document: an ordered, never empty list of lines.
//!
//! The functions of this module say what each edit does to the lines, as
//! sequences of characters, and carry the edits out on a list of strings.

use vstd::prelude::*;
use vstd::string::*;
use crate::cursor::Cursor;
use crate::motion::in_bounds;
use crate::text::{
    char_at, char_count, insert_char, insert_text, lines_view, remove_char, slice, spliced,
};

verus! {

/// The document with the character `c` inserted at `at`.
pub open spec fn char_inserted(lines: Seq<Seq<char>>, at: Cursor, c: char) -> Seq<Seq<char>> {
    lines.update(at.y as int, lines[at.y as int].insert(at.x as int, c))
}

/// The document without the character at `at`.
pub open spec fn char_removed(lines: Seq<Seq<char>>, at: Cursor) -> Seq<Seq<char>> {
    lines.update(at.y as int, lines[at.y as int].remove(at.x as int))
}

/// The document with line `y` appended to the line above it.
pub open spec fn line_joined(lines: Seq<Seq<char>>, y: int) -> Seq<Seq<char>> {
    lines.remove(y).update(y - 1, lines[y - 1] + lines[y])
}

/// The document with the line of `at` broken in two at `at`: the line
/// keeps what stands before `at`, and a new line below it gets the rest.
pub open spec fn line_broken(lines: Seq<Seq<char>>, at: Cursor) -> Seq<Seq<char>> {
    let line = lines[at.y as int];
    lines.update(at.y as int, line.subrange(0, at.x as int)).insert(
        at.y + 1,
        line.subrange(at.x as int, line.len() as int),
    )
}

/// The document with `text` inserted at `at`.
pub open spec fn text_put(lines: Seq<Seq<char>>, at: Cursor, text: Seq<char>) -> Seq<Seq<char>> {
    lines.update(at.y as int, spliced(lines[at.y as int], at.x as int, text))
}

/// The smaller of an offset and the length of a line.
pub open spec fn capped(offset: int, len: int) -> int {
    if offset < len {
        offset
    } else {
        len
    }
}

/// The part of line `i` that lies in the range from `lo` to `hi`, both
/// included: from the column of `lo` on its line, up to and including the
/// column of `hi` on its line, and the whole line in between. Columns
/// beyond the end of a line stand for its end.
pub open spec fn span_part(lines: Seq<Seq<char>>, lo: Cursor, hi: Cursor, i: int) -> Seq<char> {
    let line = lines[i];
    let from = if i == lo.y {
        capped(lo.x as int, line.len() as int)
    } else {
        0
    };
    let to = if i == hi.y {
        capped(hi.x + 1, line.len() as int)
    } else {
        line.len() as int
    };
    if from <= to {
        line.subrange(from, to)
    } else {
        Seq::empty()
    }
}

/// The parts of the lines from that of `lo` up to, not including, line
/// `until`, one after the other with nothing in between.
pub open spec fn span_until(lines: Seq<Seq<char>>, lo: Cursor, hi: Cursor, until: int) -> Seq<
    char,
>
    decreases until - lo.y,
{
    if until <= lo.y {
        Seq::empty()
    } else {
        span_until(lines, lo, hi, until - 1) + span_part(lines, lo, hi, until - 1)
    }
}

/// The text of the document in the range from `lo` to `hi`, both
/// included. Lines that the document does not have add nothing.
pub open spec fn span_text(lines: Seq<Seq<char>>, lo: Cursor, hi: Cursor) -> Seq<char> {
    span_until(lines, lo, hi, capped(hi.y + 1, lines.len() as int))
}

/// The lines one after the other, with a line feed between each two.
pub open spec fn joined(lines: Seq<Seq<char>>) -> Seq<char>
    decreases lines.len(),
{
    if lines.len() == 0 {
        Seq::empty()
    } else if lines.len() == 1 {
        lines[0]
    } else {
        joined(lines.drop_last()) + seq!['\n'] + lines.last()
    }
}

/// The offset of the first line feed of `text` at or after `from`, or the
/// length of `text` if there is none.
pub open spec fn line_end(text: Seq<char>, from: int) -> int
    decreases text.len() - from,
{
    if from >= text.len() {
        text.len() as int
    } else if text[from] == '\n' {
        from
    } else {
        line_end(text, from + 1)
    }
}

/// The line that `text` holds from `from` up to `end`. When a line feed
/// ends it, a carriage return right before that line feed is no part of
/// the line.
pub open spec fn line_between(text: Seq<char>, from: int, end: int) -> Seq<char> {
    if end < text.len() && from < end && text[end - 1] == '\r' {
        text.subrange(from, end - 1)
    } else {
        text.subrange(from, end)
    }
}

/// The lines of `text` from offset `from` on. A line ends with a line
/// feed or with the text; a line feed at the very end of the text begins
/// no further line.
pub open spec fn lines_from(text: Seq<char>, from: int) -> Seq<Seq<char>>
    decreases text.len() - from,
    via lines_from_ends
{
    if from < 0 || from >= text.len() {
        Seq::empty()
    } else {
        let end = line_end(text, from);
        seq![line_between(text, from, end)] + if end < text.len() {
            lines_from(text, end + 1)
        } else {
            Seq::empty()
        }
    }
}

#[via_fn]
proof fn lines_from_ends(text: Seq<char>, from: int) {
    if 0 <= from < text.len() {
        lemma_line_end(text, from);
    }
}

/// The lines of `text`.
pub open spec fn text_lines(text: Seq<char>) -> Seq<Seq<char>> {
    lines_from(text, 0)
}

/// The document that `text` holds: its lines, or one empty line if it has
/// none.
pub open spec fn document_of(text: Seq<char>) -> Seq<Seq<char>> {
    if text_lines(text).len() == 0 {
        seq![Seq::<char>::empty()]
    } else {
        text_lines(text)
    }
}

/// The first line feed at or after `from` lies between `from` and the end
/// of the text, and no line feed stands before it.
pub proof fn lemma_line_end(text: Seq<char>, from: int)
    requires
        0 <= from <= text.len(),
    ensures
        from <= line_end(text, from) <= text.len(),
        line_end(text, from) < text.len() ==> text[line_end(text, from)] == '\n',
        forall|j: int| from <= j < line_end(text, from) ==> text[j] != '\n',
    decreases text.len() - from,
{
    if from < text.len() && text[from] != '\n' {
        lemma_line_end(text, from + 1);
    }
}

/// The text can be saved and read again as it is: no line holds a line
/// feed, no line ends with a carriage return, and the last line is not
/// empty.
pub open spec fn survives_saving(lines: Seq<Seq<char>>) -> bool {
    &&& lines.len() > 0
    &&& lines.last().len() > 0
    &&& forall|i: int, j: int|
        0 <= i < lines.len() && 0 <= j < lines[i].len() ==> #[trigger] lines[i][j] != '\n'
    &&& forall|i: int|
        0 <= i < lines.len() && lines[i].len() > 0 ==> (#[trigger] lines[i]).last() != '\r'
}

/// The joined lines are the first line, a line feed, and the other lines
/// joined.
pub proof fn lemma_joined_from_the_front(lines: Seq<Seq<char>>)
    requires
        lines.len() >= 2,
    ensures
        joined(lines) == lines[0] + seq!['\n'] + joined(lines.drop_first()),
    decreases lines.len(),
{
    if lines.len() == 2 {
        assert(lines.drop_last() =~= seq![lines[0]]);
        assert(lines.drop_first() =~= seq![lines[1]]);
        assert(joined(lines.drop_last()) == lines[0]);
        assert(joined(lines.drop_first()) == lines[1]);
    } else {
        lemma_joined_from_the_front(lines.drop_last());
        assert(lines.drop_last().drop_first() =~= lines.drop_first().drop_last());
        assert(lines.drop_first().last() == lines.last());
        assert(joined(lines) =~= lines[0] + seq!['\n'] + joined(lines.drop_first()));
    }
}

/// Where a line ends does not depend on what stands before the text.
pub proof fn lemma_line_end_after_a_prefix(prefix: Seq<char>, text: Seq<char>, from: int)
    requires
        0 <= from <= text.len(),
    ensures
        line_end(prefix + text, prefix.len() + from) == prefix.len() + line_end(text, from),
    decreases text.len() - from,
{
    if from < text.len() {
        assert((prefix + text)[prefix.len() + from] == text[from]);
        if text[from] != '\n' {
            lemma_line_end_after_a_prefix(prefix, text, from + 1);
        }
    }
}

/// The lines of a text do not depend on what stands before the offset
/// they are read from.
pub proof fn lemma_lines_after_a_prefix(prefix: Seq<char>, text: Seq<char>, from: int)
    requires
        0 <= from <= text.len(),
    ensures
        lines_from(prefix + text, prefix.len() + from) == lines_from(text, from),
    decreases text.len() - from,
{
    let whole = prefix + text;
    let p = prefix.len() as int;
    if from < text.len() {
        lemma_line_end(text, from);
        lemma_line_end_after_a_prefix(prefix, text, from);
        let end = line_end(text, from);
        assert(whole.subrange(p + from, p + end) =~= text.subrange(from, end));
        if from < end {
            assert(whole[p + end - 1] == text[end - 1]);
            assert(whole.subrange(p + from, p + end - 1) =~= text.subrange(from, end - 1));
        }
        assert(line_between(whole, p + from, p + end) == line_between(text, from, end));
        if end < text.len() {
            lemma_lines_after_a_prefix(prefix, text, end + 1);
        }
    }
}

/// A line that holds no line feed ends where the text ends or where the
/// next part of the text begins with a line feed.
pub proof fn lemma_line_end_of_a_first_line(line: Seq<char>, rest: Seq<char>, from: int)
    requires
        0 <= from <= line.len(),
        forall|j: int| 0 <= j < line.len() ==> line[j] != '\n',
        rest.len() == 0 || rest[0] == '\n',
    ensures
        line_end(line + rest, from) == line.len(),
    decreases line.len() - from,
{
    if from < line.len() {
        assert((line + rest)[from] == line[from]);
        lemma_line_end_of_a_first_line(line, rest, from + 1);
    } else if rest.len() > 0 {
        assert((line + rest)[from] == rest[0]);
    }
}

/// Saving and reading again gives the same document: the lines of the
/// joined lines are the lines themselves, for every document that can be
/// saved as it is.
pub proof fn lemma_lines_of_joined(lines: Seq<Seq<char>>)
    requires
        survives_saving(lines),
    ensures
        text_lines(joined(lines)) == lines,
        document_of(joined(lines)) == lines,
    decreases lines.len(),
{
    let first = lines[0];
    if lines.len() == 1 {
        lemma_line_end_of_a_first_line(first, Seq::empty(), 0);
        assert(first + Seq::<char>::empty() =~= first);
        assert(first.subrange(0, first.len() as int) =~= first);
        assert(text_lines(first) =~= seq![first]);
        assert(lines =~= seq![first]);
    } else {
        let others = lines.drop_first();
        let rest = seq!['\n'] + joined(others);
        lemma_joined_from_the_front(lines);
        assert(joined(lines) =~= first + rest);
        lemma_line_end_of_a_first_line(first, rest, 0);
        assert(survives_saving(others)) by {
            assert(others.last() == lines.last());
            assert forall|i: int, j: int|
                0 <= i < others.len() && 0 <= j < others[i].len() implies #[trigger] others[i][j]
                != '\n' by {
                assert(others[i] == lines[i + 1]);
            }
            assert forall|i: int| 0 <= i < others.len() && others[i].len() > 0 implies (
            #[trigger] others[i]).last() != '\r' by {
                assert(others[i] == lines[i + 1]);
            }
        }
        lemma_lines_of_joined(others);
        let text = first + rest;
        let end = first.len() as int;
        assert(text[end] == '\n');
        assert(text.subrange(0, end) =~= first);
        if end > 0 {
            assert(text[end - 1] == first.last());
        }
        assert(line_between(text, 0, end) == first);
        lemma_lines_after_a_prefix(first + seq!['\n'], joined(others), 0);
        assert(first + seq!['\n'] + joined(others) =~= text);
        assert(lines_from(text, end + 1) == others);
        assert(text_lines(text) =~= seq![first] + others);
        assert(seq![first] + others =~= lines);
    }
}

/// The text of a range that lies on one line is that line from the column
/// of the lower end up to and including the column of the upper end.
pub proof fn lemma_span_on_one_line(lines: Seq<Seq<char>>, lo: Cursor, hi: Cursor)
    requires
        lo.y == hi.y,
        lo.x <= hi.x,
        in_bounds(lines, lo),
        hi.x < lines[hi.y as int].len(),
    ensures
        span_text(lines, lo, hi) == lines[lo.y as int].subrange(lo.x as int, hi.x + 1),
{
    assert(span_until(lines, lo, hi, lo.y as int) =~= Seq::<char>::empty());
}

/// The text of a range that spans several lines is the first line from
/// the column of the lower end to its end, then every line in between as
/// a whole, then the last line from its start up to and including the
/// column of the upper end. Nothing stands between the lines.
pub proof fn lemma_span_over_lines(lines: Seq<Seq<char>>, lo: Cursor, hi: Cursor)
    requires
        lo.y < hi.y,
        in_bounds(lines, lo),
        in_bounds(lines, hi),
        hi.x < lines[hi.y as int].len(),
    ensures
        span_text(lines, lo, hi) == lines[lo.y as int].subrange(
            lo.x as int,
            lines[lo.y as int].len() as int,
        ) + lines.subrange(lo.y + 1, hi.y as int).flatten() + lines[hi.y as int].subrange(
            0,
            hi.x + 1,
        ),
{
    lemma_span_before_last_line(lines, lo, hi, hi.y as int);
}

/// The text of the lines of a range that come before line `until`, when
/// the last line of the range does not: the rest of the first line, then
/// whole lines.
proof fn lemma_span_before_last_line(lines: Seq<Seq<char>>, lo: Cursor, hi: Cursor, until: int)
    requires
        lo.y < until <= hi.y,
        in_bounds(lines, lo),
        hi.y < lines.len(),
    ensures
        span_until(lines, lo, hi, until) == lines[lo.y as int].subrange(
            lo.x as int,
            lines[lo.y as int].len() as int,
        ) + lines.subrange(lo.y + 1, until).flatten(),
    decreases until,
{
    let first = lines[lo.y as int].subrange(lo.x as int, lines[lo.y as int].len() as int);
    if until == lo.y + 1 {
        assert(span_until(lines, lo, hi, lo.y as int) =~= Seq::<char>::empty());
    } else {
        lemma_span_before_last_line(lines, lo, hi, until - 1);
        let before = lines.subrange(lo.y + 1, until - 1);
        assert(lines.subrange(lo.y + 1, until) =~= before.push(lines[until - 1]));
        before.lemma_flatten_push(lines[until - 1]);
        assert(span_until(lines, lo, hi, until) =~= first + (before.flatten() + lines[until
            - 1]));
    }
}

/// Replaces line `y` by `line`.
fn replace_line(lines: &mut Vec<String>, y: usize, line: String)
    requires
        y < old(lines).len(),
    ensures
        lines_view(final(lines)@) == lines_view(old(lines)@).update(y as int, line@),
{
    lines.set(y, line);
}

/// Inserts the character `c` at `at`.
pub fn insert_char_at(lines: &mut Vec<String>, at: Cursor, c: char)
    requires
        in_bounds(lines_view(old(lines)@), at),
    ensures
        lines_view(final(lines)@) == char_inserted(lines_view(old(lines)@), at, c),
{
    let line = insert_char(&lines[at.y], at.x, c);
    replace_line(lines, at.y, line);
}

/// Removes the character at `at`.
pub fn remove_char_at(lines: &mut Vec<String>, at: Cursor)
    requires
        at.y < old(lines).len(),
        at.x < old(lines)@[at.y as int]@.len(),
    ensures
        lines_view(final(lines)@) == char_removed(lines_view(old(lines)@), at),
{
    let line = remove_char(&lines[at.y], at.x);
    replace_line(lines, at.y, line);
}

/// Appends line `y` to the line above it and returns how long that line
/// was before.
pub fn join_with_previous(lines: &mut Vec<String>, y: usize) -> (dx: usize)
    requires
        0 < y < old(lines).len(),
    ensures
        lines_view(final(lines)@) == line_joined(lines_view(old(lines)@), y as int),
        dx == lines_view(old(lines)@)[y - 1].len(),
{
    let line = lines.remove(y);
    let dx = char_count(&lines[y - 1]);
    let mut previous = slice(&lines[y - 1], 0, dx);
    previous.append(line.as_str());
    assert(previous@ =~= old(lines)@[y - 1]@ + line@);
    lines.set(y - 1, previous);
    dx
}

/// Breaks the line of `at` in two at `at`.
pub fn break_line_at(lines: &mut Vec<String>, at: Cursor)
    requires
        in_bounds(lines_view(old(lines)@), at),
    ensures
        lines_view(final(lines)@) == line_broken(lines_view(old(lines)@), at),
{
    assert(at.y < lines.len());
    let n = char_count(&lines[at.y]);
    let old_line = slice(&lines[at.y], 0, at.x);
    let new_line = slice(&lines[at.y], at.x, n);
    lines.set(at.y, old_line);
    lines.insert(at.y + 1, new_line);
}

/// Inserts `text` at `at`.
pub fn put_text_at(lines: &mut Vec<String>, at: Cursor, text: &String)
    requires
        in_bounds(lines_view(old(lines)@), at),
    ensures
        lines_view(final(lines)@) == text_put(lines_view(old(lines)@), at, text@),
{
    let line = insert_text(&lines[at.y], at.x, text);
    replace_line(lines, at.y, line);
}

/// The text of the document in the range from `lo` to `hi`, both included.
pub fn span(lines: &Vec<String>, lo: &Cursor, hi: &Cursor) -> (content: String)
    ensures
        content@ == span_text(lines_view(lines@), *lo, *hi),
{
    let ghost doc = lines_view(lines@);
    let mut content = String::new();
    let s = lo.y;
    let until = if hi.y < lines.len() {
        hi.y + 1
    } else {
        lines.len()
    };
    let mut i: usize = s;
    while i < until
        invariant
            doc == lines_view(lines@),
            s == lo.y,
            until <= lines.len(),
            until == capped(hi.y + 1, lines.len() as int),
            s <= i,
            i <= until || (until <= s && i == s),
            content@ == span_until(doc, *lo, *hi, i as int),
        decreases until - i,
    {
        let len = char_count(&lines[i]);
        let from = if i == s {
            if lo.x < len {
                lo.x
            } else {
                len
            }
        } else {
            0
        };
        let to = if i == hi.y {
            if hi.x < len {
                hi.x + 1
            } else {
                len
            }
        } else {
            len
        };
        if from <= to {
            content.append(lines[i].as_str().substring_char(from, to));
        }
        assert(content@ =~= span_until(doc, *lo, *hi, i as int) + span_part(
            doc,
            *lo,
            *hi,
            i as int,
        ));
        i += 1;
    }
    content
}

/// The lines one after the other, with a line feed between each two.
pub fn join_lines(lines: &Vec<String>) -> (content: String)
    ensures
        content@ == joined(lines_view(lines@)),
{
    let ghost doc = lines_view(lines@);
    let mut content = String::new();
    let mut i: usize = 0;
    while i < lines.len()
        invariant
            doc == lines_view(lines@),
            i <= lines.len(),
            content@ == joined(doc.subrange(0, i as int)),
        decreases lines.len() - i,
    {
        if i > 0 {
            content.push('\n');
        }
        content.append(lines[i].as_str());
        assert(doc.subrange(0, i + 1).drop_last() =~= doc.subrange(0, i as int));
        i += 1;
    }
    assert(doc.subrange(0, lines.len() as int) =~= doc);
    content
}

/// The lines of `text`.
pub fn split_lines(text: &String) -> (lines: Vec<String>)
    ensures
        lines_view(lines@) == text_lines(text@),
{
    let n = char_count(text);
    let mut lines: Vec<String> = Vec::new();
    let mut start: usize = 0;
    let mut i: usize = 0;
    while i < n
        invariant
            n == text@.len(),
            start <= i <= n,
            line_end(text@, start as int) == line_end(text@, i as int),
            lines_view(lines@) + lines_from(text@, start as int) == text_lines(text@),
        decreases n - i,
    {
        if char_at(text, i) == '\n' {
            let end = if i > start && char_at(text, i - 1) == '\r' {
                i - 1
            } else {
                i
            };
            let line = slice(text, start, end);
            lines.push(line);
            start = i + 1;
        }
        i += 1;
    }
    if start < n {
        let line = slice(text, start, n);
        lines.push(line);
    }
    lines
}

/// The document that `text` holds: its lines, or one empty line if it has
/// none.
pub fn document_from(text: &String) -> (lines: Vec<String>)
    ensures
        lines_view(lines@) == document_of(text@),
        lines.len() > 0,
{
    let mut lines = split_lines(text);
    if lines.len() == 0 {
        lines.push(String::new());
    }
    lines
}

} // verus!
