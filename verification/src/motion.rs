//! Motions: where a word motion or a character search takes the cursor.
//!
//! Resolving a motion changes nothing. It returns the position the cursor
//! is at and the position the motion leads to; moving the cursor there is
//! the engine's part.

use vstd::prelude::*;
use crate::cursor::Cursor;
use crate::editor_model::EditorModel;
use crate::keys::scalar;
use crate::text::{char_at, char_count, lines_view};

verus! {

/// A 2D point: a column and a line of the document.
pub struct Position(pub usize, pub usize);

impl Position {
    /// The column.
    pub fn x(&self) -> (r: usize)
        ensures
            r == self.0,
    {
        self.0
    }

    /// The line.
    pub fn y(&self) -> (r: usize)
        ensures
            r == self.1,
    {
        self.1
    }

    /// The position as a cursor.
    pub open spec fn cursor(self) -> Cursor {
        Cursor { x: self.0, y: self.1 }
    }
}

/// A computed cursor displacement.
#[derive(Clone, Copy, Debug, PartialEq, Eq, Structural)]
pub enum Motion {
    /// Move by a number of words; a negative count goes backward.
    Words { n_words: i32 },
    /// Move forward to the next occurrence of the character on the same line.
    Forward { ch: u32 },
    /// Move backward to the next occurrence of the character on the same line.
    Backward { ch: u32 },
}

/// The position lies inside the document: on one of its lines, at an
/// offset between the start of the line and its end, both included.
pub open spec fn in_bounds(lines: Seq<Seq<char>>, c: Cursor) -> bool {
    c.y < lines.len() && c.x <= lines[c.y as int].len()
}

/// `i` is the first offset after `x` at which `line` holds `c`.
pub open spec fn next_occurrence(line: Seq<char>, x: int, c: char, i: int) -> bool {
    &&& x < i < line.len()
    &&& line[i] == c
    &&& forall|j: int| x < j < i ==> line[j] != c
}

/// `i` is the last offset before `x` at which `line` holds `c`.
pub open spec fn previous_occurrence(line: Seq<char>, x: int, c: char, i: int) -> bool {
    &&& 0 <= i < x
    &&& i < line.len()
    &&& line[i] == c
    &&& forall|j: int| i < j < x && j < line.len() ==> line[j] != c
}

/// Where a forward search for the key code `ch` leads from offset `x`: the
/// first later offset that holds that character, or `x` itself when the
/// rest of the line does not hold it or `ch` is no character.
pub open spec fn forward_target(line: Seq<char>, x: int, ch: u32) -> int {
    match scalar(ch) {
        Some(c) => if exists|i: int| next_occurrence(line, x, c, i) {
            choose|i: int| next_occurrence(line, x, c, i)
        } else {
            x
        },
        None => x,
    }
}

/// Where a backward search for the key code `ch` leads from offset `x`: the
/// last earlier offset that holds that character, or `x` itself when the
/// start of the line does not hold it or `ch` is no character.
pub open spec fn backward_target(line: Seq<char>, x: int, ch: u32) -> int {
    match scalar(ch) {
        Some(c) => if exists|i: int| previous_occurrence(line, x, c, i) {
            choose|i: int| previous_occurrence(line, x, c, i)
        } else {
            x
        },
        None => x,
    }
}

/// A forward search leads to the first later occurrence of the character,
/// whenever there is one.
pub proof fn lemma_forward_target_found(line: Seq<char>, x: int, ch: u32, i: int)
    requires
        scalar(ch) is Some,
        next_occurrence(line, x, scalar(ch)->0, i),
    ensures
        forward_target(line, x, ch) == i,
{
    let t = forward_target(line, x, ch);
}

/// A backward search leads to the last earlier occurrence of the
/// character, whenever there is one.
pub proof fn lemma_backward_target_found(line: Seq<char>, x: int, ch: u32, i: int)
    requires
        scalar(ch) is Some,
        previous_occurrence(line, x, scalar(ch)->0, i),
    ensures
        backward_target(line, x, ch) == i,
{
    let t = backward_target(line, x, ch);
}

/// How many word boundaries a word motion has to pass. It is the size of
/// the count, and one more for a backward motion that starts right after a
/// space: passing that space does not count as a word.
pub open spec fn word_steps(n_words: i32, line: Seq<char>, x: int) -> nat {
    let size: nat = if n_words < 0 {
        (-n_words) as nat
    } else {
        n_words as nat
    };
    if n_words < 0 && 0 < x <= line.len() && line[x - 1] == ' ' {
        size + 1
    } else {
        size
    }
}

/// Where the cursor stands after walking forward from `(x, y)` until
/// `left` word boundaries are passed.
///
/// One step moves one cell to the right. Landing on a space passes a
/// boundary and moves one cell further. At the end of a line the walk goes
/// on at the start of the next line, which passes a boundary too; at the
/// end of the last line it stays where it is and the boundary counts as
/// passed.
pub open spec fn walk_forward(lines: Seq<Seq<char>>, x: int, y: int, left: nat) -> (int, int)
    decreases left, lines[y].len() - x,
{
    if left == 0 || !(0 <= y < lines.len()) || x < 0 {
        (x, y)
    } else if x + 1 < lines[y].len() {
        if lines[y][x + 1] == ' ' {
            walk_forward(lines, x + 2, y, (left - 1) as nat)
        } else {
            walk_forward(lines, x + 1, y, left)
        }
    } else if y + 1 < lines.len() {
        walk_forward(lines, 0, y + 1, (left - 1) as nat)
    } else {
        walk_forward(lines, x, y, (left - 1) as nat)
    }
}

/// Where the cursor stands after walking backward from `(x, y)` until
/// `left` word boundaries are passed.
///
/// One step moves one cell to the left. Landing on a space, or on the
/// first cell of a line, passes a boundary. From the first cell the walk
/// goes on at the last character of the line above, which passes no
/// boundary; at the start of the document the walk ends.
pub open spec fn walk_backward(lines: Seq<Seq<char>>, x: int, y: int, left: nat) -> (int, int)
    decreases left, y, x,
{
    if left == 0 || !(0 <= y < lines.len()) || !(0 <= x <= lines[y].len()) {
        (x, y)
    } else if x > 0 {
        if lines[y][x - 1] == ' ' || x - 1 == 0 {
            walk_backward(lines, x - 1, y, (left - 1) as nat)
        } else {
            walk_backward(lines, x - 1, y, left)
        }
    } else if y > 0 {
        let above = lines[y - 1].len();
        walk_backward(
            lines,
            if above > 0 {
                above - 1
            } else {
                0
            },
            y - 1,
            left,
        )
    } else {
        (x, y)
    }
}

/// Where a word motion leads from `(x, y)`. A backward motion that does
/// not end on the first cell of a line ends one cell to the right of where
/// its walk stopped.
pub open spec fn word_target(lines: Seq<Seq<char>>, x: int, y: int, n_words: i32) -> (int, int) {
    let left = word_steps(n_words, lines[y], x);
    if n_words > 0 {
        walk_forward(lines, x, y, left)
    } else if n_words < 0 {
        let stop = walk_backward(lines, x, y, left);
        if stop.0 != 0 {
            (stop.0 + 1, stop.1)
        } else {
            stop
        }
    } else {
        (x, y)
    }
}

/// `line` holds no space from offset `from` up to, not including, `to`.
pub open spec fn no_space(line: Seq<char>, from: int, to: int) -> bool {
    forall|j: int| from <= j < to && 0 <= j < line.len() ==> line[j] != ' '
}

/// Walking forward passes its first boundary at the next space of the
/// line, and goes on from the cell after that space.
pub proof fn lemma_walk_forward_passes_the_next_space(
    lines: Seq<Seq<char>>,
    x: int,
    y: int,
    space: int,
    left: nat,
)
    requires
        0 <= y < lines.len(),
        0 <= x < space < lines[y].len(),
        lines[y][space] == ' ',
        no_space(lines[y], x + 1, space),
        left > 0,
    ensures
        walk_forward(lines, x, y, left) == walk_forward(lines, space + 1, y, (left - 1) as nat),
    decreases space - x,
{
    if x + 1 < space {
        lemma_walk_forward_passes_the_next_space(lines, x + 1, y, space, left);
    }
}

/// Where the rest of the line holds no space, walking forward passes its
/// first boundary at the end of the line and goes on from the start of
/// the next line.
pub proof fn lemma_walk_forward_wraps_to_the_next_line(
    lines: Seq<Seq<char>>,
    x: int,
    y: int,
    left: nat,
)
    requires
        0 <= y,
        y + 1 < lines.len(),
        0 <= x <= lines[y].len(),
        no_space(lines[y], x + 1, lines[y].len() as int),
        left > 0,
    ensures
        walk_forward(lines, x, y, left) == walk_forward(lines, 0, y + 1, (left - 1) as nat),
    decreases lines[y].len() - x,
{
    if x + 1 < lines[y].len() {
        lemma_walk_forward_wraps_to_the_next_line(lines, x + 1, y, left);
    }
}

/// On the last line, where the rest of the line holds no space, walking
/// forward ends on the last character of the line, however many
/// boundaries are left to pass. A walk that starts on the last character
/// or after it stays where it is.
pub proof fn lemma_walk_forward_stops_at_the_end(
    lines: Seq<Seq<char>>,
    x: int,
    y: int,
    left: nat,
)
    requires
        0 <= y,
        y + 1 == lines.len(),
        0 <= x <= lines[y].len(),
        no_space(lines[y], x + 1, lines[y].len() as int),
        left > 0,
    ensures
        walk_forward(lines, x, y, left) == if x + 1 < lines[y].len() {
            (lines[y].len() - 1, y)
        } else {
            (x, y)
        },
    decreases left, lines[y].len() - x,
{
    if x + 1 < lines[y].len() {
        lemma_walk_forward_stops_at_the_end(lines, x + 1, y, left);
    } else if left > 1 {
        lemma_walk_forward_stops_at_the_end(lines, x, y, (left - 1) as nat);
    } else {
        assert(walk_forward(lines, x, y, 0) == (x, y));
    }
}

/// Walking backward passes its first boundary at the last space before
/// the start, or on the first cell of the line if no space comes before,
/// and goes on from there.
pub proof fn lemma_walk_backward_passes_the_previous_space(
    lines: Seq<Seq<char>>,
    x: int,
    y: int,
    stop: int,
    left: nat,
)
    requires
        0 <= y < lines.len(),
        0 <= stop < x <= lines[y].len(),
        lines[y][stop] == ' ' || stop == 0,
        no_space(lines[y], stop + 1, x),
        left > 0,
    ensures
        walk_backward(lines, x, y, left) == walk_backward(lines, stop, y, (left - 1) as nat),
    decreases x - stop,
{
    if stop < x - 1 {
        lemma_walk_backward_passes_the_previous_space(lines, x - 1, y, stop, left);
    }
}

/// One word forward from inside a line that holds a space further on
/// leads to the cell after the next space.
pub proof fn lemma_word_forward_on_the_line(lines: Seq<Seq<char>>, cursor: Cursor, space: int)
    requires
        in_bounds(lines, cursor),
        cursor.x < space < lines[cursor.y as int].len(),
        lines[cursor.y as int][space] == ' ',
        no_space(lines[cursor.y as int], cursor.x + 1, space),
    ensures
        (Motion::Words { n_words: 1 }).target(lines, cursor) == (space + 1, cursor.y as int),
{
    lemma_walk_forward_passes_the_next_space(lines, cursor.x as int, cursor.y as int, space, 1);
}

/// One word backward from inside a word, or from right after it, leads to
/// the start of that word: the cell after the last space before the
/// cursor, or the start of the line if no space comes before.
pub proof fn lemma_word_backward_to_the_word_start(
    lines: Seq<Seq<char>>,
    cursor: Cursor,
    stop: int,
)
    requires
        in_bounds(lines, cursor),
        0 <= stop < cursor.x,
        lines[cursor.y as int][cursor.x - 1] != ' ',
        lines[cursor.y as int][stop] == ' ' || stop == 0,
        no_space(lines[cursor.y as int], stop + 1, cursor.x as int),
    ensures
        (Motion::Words { n_words: -1i32 }).target(lines, cursor) == if stop == 0 {
            (0int, cursor.y as int)
        } else {
            (stop + 1, cursor.y as int)
        },
{
    lemma_walk_backward_passes_the_previous_space(
        lines,
        cursor.x as int,
        cursor.y as int,
        stop,
        1,
    );
}

/// One word backward from the start of a word that follows a space leads
/// to the start of the word before that space.
pub proof fn lemma_word_backward_to_the_previous_word(
    lines: Seq<Seq<char>>,
    cursor: Cursor,
    stop: int,
)
    requires
        in_bounds(lines, cursor),
        0 <= stop,
        stop + 1 < cursor.x,
        lines[cursor.y as int][cursor.x - 1] == ' ',
        lines[cursor.y as int][stop] == ' ' || stop == 0,
        no_space(lines[cursor.y as int], stop + 1, cursor.x - 1),
    ensures
        (Motion::Words { n_words: -1i32 }).target(lines, cursor) == if stop == 0 {
            (0int, cursor.y as int)
        } else {
            (stop + 1, cursor.y as int)
        },
{
    lemma_walk_backward_passes_the_previous_space(
        lines,
        cursor.x - 1,
        cursor.y as int,
        stop,
        1,
    );
}

/// From the start of a word that a space follows on its line, one word
/// forward leads to the cell after that space, and one word backward from
/// there leads back to the start of the word. The one exception is a word
/// that starts in the second cell of the line, after a space in the first:
/// from there the way back ends on the first cell.
pub proof fn lemma_word_forward_then_backward_from_a_word_start(
    lines: Seq<Seq<char>>,
    cursor: Cursor,
    space: int,
)
    requires
        in_bounds(lines, cursor),
        cursor.x < space < lines[cursor.y as int].len(),
        lines[cursor.y as int][space] == ' ',
        no_space(lines[cursor.y as int], cursor.x as int, space),
        cursor.x == 0 || lines[cursor.y as int][cursor.x - 1] == ' ',
        space + 1 <= usize::MAX,
    ensures
        ({
            let there = (Motion::Words { n_words: 1 }).target(lines, cursor);
            let back = (Motion::Words { n_words: -1i32 }).target(
                lines,
                Cursor { x: (space + 1) as usize, y: cursor.y },
            );
            &&& there == (space + 1, cursor.y as int)
            &&& back == if cursor.x == 1 {
                (0int, cursor.y as int)
            } else {
                (cursor.x as int, cursor.y as int)
            }
            &&& cursor.x - 1 <= back.0 <= cursor.x
        }),
{
    lemma_word_forward_on_the_line(lines, cursor, space);
    let stop = if cursor.x == 0 {
        0int
    } else {
        cursor.x - 1
    };
    lemma_word_backward_to_the_previous_word(
        lines,
        Cursor { x: (space + 1) as usize, y: cursor.y },
        stop,
    );
}

/// A walk forward that starts inside the document ends inside it.
pub proof fn lemma_walk_forward_in_bounds(lines: Seq<Seq<char>>, x: int, y: int, left: nat)
    requires
        0 <= y < lines.len(),
        0 <= x <= lines[y].len(),
    ensures
        0 <= walk_forward(lines, x, y, left).1 < lines.len(),
        0 <= walk_forward(lines, x, y, left).0 <= lines[walk_forward(lines, x, y, left).1].len(),
    decreases left, lines[y].len() - x,
{
    if left == 0 {
    } else if x + 1 < lines[y].len() {
        if lines[y][x + 1] == ' ' {
            lemma_walk_forward_in_bounds(lines, x + 2, y, (left - 1) as nat);
        } else {
            lemma_walk_forward_in_bounds(lines, x + 1, y, left);
        }
    } else if y + 1 < lines.len() {
        lemma_walk_forward_in_bounds(lines, 0, y + 1, (left - 1) as nat);
    } else {
        lemma_walk_forward_in_bounds(lines, x, y, (left - 1) as nat);
    }
}

/// A walk backward that starts inside the document ends inside it, and
/// one that passes a boundary ends on a character or at the start of a
/// line, never after the last character.
pub proof fn lemma_walk_backward_in_bounds(lines: Seq<Seq<char>>, x: int, y: int, left: nat)
    requires
        0 <= y < lines.len(),
        0 <= x <= lines[y].len(),
    ensures
        0 <= walk_backward(lines, x, y, left).1 < lines.len(),
        0 <= walk_backward(lines, x, y, left).0 <= lines[walk_backward(lines, x, y, left).1].len(),
        left > 0 || x == 0 || x < lines[y].len() ==> walk_backward(lines, x, y, left).0 == 0
            || walk_backward(lines, x, y, left).0 < lines[walk_backward(
            lines,
            x,
            y,
            left,
        ).1].len(),
    decreases left, y, x,
{
    if left == 0 {
    } else if x > 0 {
        if lines[y][x - 1] == ' ' || x - 1 == 0 {
            lemma_walk_backward_in_bounds(lines, x - 1, y, (left - 1) as nat);
        } else {
            lemma_walk_backward_in_bounds(lines, x - 1, y, left);
        }
    } else if y > 0 {
        let above = lines[y - 1].len();
        lemma_walk_backward_in_bounds(
            lines,
            if above > 0 {
                above - 1
            } else {
                0
            },
            y - 1,
            left,
        );
    }
}

/// Every motion leads from a position inside the document to a position
/// inside the document.
pub proof fn lemma_target_in_bounds(motion: Motion, lines: Seq<Seq<char>>, cursor: Cursor)
    requires
        in_bounds(lines, cursor),
    ensures
        0 <= motion.target(lines, cursor).1 < lines.len(),
        0 <= motion.target(lines, cursor).0 <= lines[motion.target(lines, cursor).1].len(),
{
    let line = lines[cursor.y as int];
    let x = cursor.x as int;
    match motion {
        Motion::Forward { ch } => {
            if scalar(ch) is Some && exists|i: int| next_occurrence(line, x, scalar(ch)->0, i) {
                let i = choose|i: int| next_occurrence(line, x, scalar(ch)->0, i);
                lemma_forward_target_found(line, x, ch, i);
            }
        },
        Motion::Backward { ch } => {
            if scalar(ch) is Some && exists|i: int|
                previous_occurrence(line, x, scalar(ch)->0, i) {
                let i = choose|i: int| previous_occurrence(line, x, scalar(ch)->0, i);
                lemma_backward_target_found(line, x, ch, i);
            }
        },
        Motion::Words { n_words } => {
            let left = word_steps(n_words, line, x);
            if n_words > 0 {
                lemma_walk_forward_in_bounds(lines, x, cursor.y as int, left);
            } else if n_words < 0 {
                lemma_walk_backward_in_bounds(lines, x, cursor.y as int, left);
            }
        },
    }
}

impl Motion {
    /// Where the motion leads from `cursor` in the document `lines`.
    pub open spec fn target(self, lines: Seq<Seq<char>>, cursor: Cursor) -> (int, int) {
        match self {
            Motion::Forward { ch } => (
                forward_target(lines[cursor.y as int], cursor.x as int, ch),
                cursor.y as int,
            ),
            Motion::Backward { ch } => (
                backward_target(lines[cursor.y as int], cursor.x as int, ch),
                cursor.y as int,
            ),
            Motion::Words { n_words } => word_target(
                lines,
                cursor.x as int,
                cursor.y as int,
                n_words,
            ),
        }
    }

    /// Resolves the motion for the document and the cursor of `model`:
    /// returns the position of the cursor and the position the motion
    /// leads to, which lies inside the document too. The model itself is
    /// left as it is.
    pub fn apply(&self, model: &EditorModel) -> (r: (Position, Position))
        requires
            model.wf(),
        ensures
            r.0.cursor() == model@.cursor,
            (r.1.0 as int, r.1.1 as int) == self.target(model@.lines, model@.cursor),
            in_bounds(model@.lines, r.1.cursor()),
    {
        self.resolve(model.get_lines(), model.get_cursor())
    }

    /// Resolves the motion in the document `lines` for a cursor at
    /// `cursor`: returns that position and the position the motion leads
    /// to, which lies inside the document too.
    pub fn resolve(&self, lines: &Vec<String>, cursor: &Cursor) -> (r: (Position, Position))
        requires
            in_bounds(lines_view(lines@), *cursor),
        ensures
            r.0.cursor() == *cursor,
            (r.1.0 as int, r.1.1 as int) == self.target(lines_view(lines@), *cursor),
            in_bounds(lines_view(lines@), r.1.cursor()),
    {
        match *self {
            Motion::Forward { ch } => {
                let x = find_forward(&lines[cursor.y], cursor.x, ch);
                (Position(cursor.x, cursor.y), Position(x, cursor.y))
            },
            Motion::Backward { ch } => {
                let x = find_backward(&lines[cursor.y], cursor.x, ch);
                (Position(cursor.x, cursor.y), Position(x, cursor.y))
            },
            Motion::Words { n_words } => {
                let target = move_words(lines, cursor, n_words);
                (Position(cursor.x, cursor.y), target)
            },
        }
    }
}

/// Searches `line` forward from offset `x` for the character with code `ch`.
pub fn find_forward(line: &String, x: usize, ch: u32) -> (r: usize)
    requires
        x <= line@.len(),
    ensures
        r == forward_target(line@, x as int, ch),
        x <= r <= line@.len(),
{
    let n = char_count(line);
    match char::from_u32(ch) {
        Some(c) => {
            if x == n {
                return x;
            }
            let mut i: usize = x + 1;
            while i < n
                invariant
                    x < i <= n,
                    n == line@.len(),
                    scalar(ch) == Some(c),
                    forall|j: int| x < j < i ==> line@[j] != c,
                decreases n - i,
            {
                if char_at(line, i) == c {
                    proof {
                        lemma_forward_target_found(line@, x as int, ch, i as int);
                    }
                    return i;
                }
                i += 1;
            }
            x
        },
        None => x,
    }
}

/// Searches `line` backward from offset `x` for the character with code `ch`.
pub fn find_backward(line: &String, x: usize, ch: u32) -> (r: usize)
    requires
        x <= line@.len(),
    ensures
        r == backward_target(line@, x as int, ch),
        r <= x,
{
    match char::from_u32(ch) {
        Some(c) => {
            let mut i: usize = x;
            while i > 0
                invariant
                    i <= x <= line@.len(),
                    scalar(ch) == Some(c),
                    forall|j: int| i <= j < x && j < line@.len() ==> line@[j] != c,
                decreases i,
            {
                i -= 1;
                if i < char_count(line) && char_at(line, i) == c {
                    proof {
                        lemma_backward_target_found(line@, x as int, ch, i as int);
                    }
                    return i;
                }
            }
            x
        },
        None => x,
    }
}

/// Resolves a word motion of `n_words` words from `cursor`.
pub fn move_words(lines: &Vec<String>, cursor: &Cursor, n_words: i32) -> (r: Position)
    requires
        in_bounds(lines_view(lines@), *cursor),
    ensures
        (r.0 as int, r.1 as int) == word_target(
            lines_view(lines@),
            cursor.x as int,
            cursor.y as int,
            n_words,
        ),
        in_bounds(lines_view(lines@), r.cursor()),
{
    let ghost doc = lines_view(lines@);
    let n_lines = lines.len();
    let mut x_pos: usize = cursor.x;
    let mut y_pos: usize = cursor.y;
    let mut to_process: u64 = if n_words < 0 {
        (-(n_words as i64)) as u64
    } else {
        n_words as u64
    };
    // Going backward, a space right before the cursor has to be skipped
    if n_words < 0 && x_pos > 0 && char_at(&lines[y_pos], x_pos - 1) == ' ' {
        to_process += 1;
    }
    if n_words > 0 {
        while to_process > 0
            invariant
                doc == lines_view(lines@),
                n_lines == lines.len(),
                y_pos < n_lines,
                x_pos <= doc[y_pos as int].len(),
                walk_forward(doc, x_pos as int, y_pos as int, to_process as nat) == walk_forward(
                    doc,
                    cursor.x as int,
                    cursor.y as int,
                    word_steps(n_words, doc[cursor.y as int], cursor.x as int),
                ),
            decreases to_process, doc[y_pos as int].len() - x_pos,
        {
            let len = char_count(&lines[y_pos]);
            if len > 0 && x_pos < len - 1 {
                x_pos += 1;
                if char_at(&lines[y_pos], x_pos) == ' ' {
                    to_process -= 1;
                    x_pos += 1;
                }
            } else {
                if y_pos < n_lines - 1 {
                    x_pos = 0;
                    y_pos += 1;
                }
                to_process -= 1;
            }
        }
        Position(x_pos, y_pos)
    } else if n_words < 0 {
        while to_process > 0
            invariant
                doc == lines_view(lines@),
                n_lines == lines.len(),
                y_pos < n_lines,
                x_pos <= doc[y_pos as int].len(),
                walk_backward(doc, x_pos as int, y_pos as int, to_process as nat) == walk_backward(
                    doc,
                    cursor.x as int,
                    cursor.y as int,
                    word_steps(n_words, doc[cursor.y as int], cursor.x as int),
                ),
                to_process > 0 || x_pos == 0 || x_pos < doc[y_pos as int].len(),
                to_process > 0 || x_pos < usize::MAX,
            decreases to_process, y_pos, x_pos,
        {
            if x_pos > 0 {
                x_pos -= 1;
                if char_at(&lines[y_pos], x_pos) == ' ' || x_pos == 0 {
                    to_process -= 1;
                }
            } else if y_pos > 0 {
                // move one line up
                y_pos -= 1;
                let len = char_count(&lines[y_pos]);
                if len > 0 {
                    x_pos = len - 1;
                } else {
                    x_pos = 0;
                }
            } else {
                to_process = 0;
            }
        }
        // Going backward, the cursor ends one cell after where the walk stopped
        if x_pos != 0 {
            x_pos += 1;
        }
        Position(x_pos, y_pos)
    } else {
        Position(x_pos, y_pos)
    }
}

} // verus!
