//! The selection: a range of the document between two positions.

use vstd::prelude::*;
use crate::cursor::Cursor;

verus! {

/// A range of the document, held as the two positions that were assigned
/// to it. Either of them may be the earlier one: the range runs from
/// [`Selection::lower`] to [`Selection::upper`].
#[derive(Clone, Copy, Debug)]
pub struct Selection {
    pub start: Cursor,
    pub end: Cursor,
}

impl Selection {
    /// The earlier of the two endpoints.
    pub open spec fn lower(self) -> Cursor {
        if self.start.before(self.end) {
            self.start
        } else {
            self.end
        }
    }

    /// The later of the two endpoints.
    pub open spec fn upper(self) -> Cursor {
        if self.start.before(self.end) {
            self.end
        } else {
            self.start
        }
    }

    /// The range covers some part of line `line_number`.
    pub open spec fn covers_line(self, line_number: usize) -> bool {
        self.lower().y <= line_number <= self.upper().y
    }

    /// The range shows column `column` of line `line_number` as selected:
    /// on its first line from the column of the lower end on, on its last
    /// line up to, not including, the column of the upper end, and every
    /// column of the lines in between.
    pub open spec fn marks(self, line_number: usize, column: int) -> bool {
        &&& self.covers_line(line_number)
        &&& line_number == self.lower().y ==> self.lower().x <= column
        &&& line_number == self.upper().y ==> column < self.upper().x
    }

    /// Where the selected part of the piece of line `line_number` from
    /// column `from` up to column `to` begins and ends, counted from the
    /// start of the piece. A piece with no selected column gives an empty
    /// part.
    pub open spec fn marked_part(self, line_number: usize, from: usize, to: usize) -> (int, int) {
        if !self.covers_line(line_number) {
            (0, 0)
        } else {
            let first: int = if line_number == self.lower().y {
                self.lower().x as int
            } else {
                0
            };
            let last: int = if line_number == self.upper().y {
                self.upper().x as int
            } else {
                to as int
            };
            let begin = if first < from {
                from as int
            } else if first > to {
                to as int
            } else {
                first
            };
            let end = if last < begin {
                begin
            } else if last > to {
                to as int
            } else {
                last
            };
            (begin - from, end - from)
        }
    }

    /// The same range with `pos` as its end.
    pub open spec fn with_end(self, pos: Cursor) -> Selection {
        Selection { start: self.start, end: pos }
    }

    /// The range between the two given positions.
    pub fn new(start: Cursor, end: Cursor) -> (r: Self)
        ensures
            r == (Selection { start, end }),
    {
        Self { start, end }
    }

    /// Returns true if the selection contains the given line.
    pub fn contains_line(&self, line_number: usize) -> (r: bool)
        ensures
            r == self.covers_line(line_number),
    {
        self.start().y <= line_number && self.end().y >= line_number
    }

    /// Tells which part of a piece of a line to show as selected. The
    /// piece runs from column `from` up to, not including, column `to` of
    /// line `line_number`; the result is where the selected part begins
    /// and ends, counted from the start of the piece.
    pub fn highlight(&self, line_number: usize, from: usize, to: usize) -> (r: (usize, usize))
        requires
            from <= to,
        ensures
            (r.0 as int, r.1 as int) == self.marked_part(line_number, from, to),
            r.0 <= r.1 <= to - from,
            forall|column: int|
                from <= column < to ==> (self.marks(line_number, column) <==> from + r.0 <= column
                    < from + r.1),
    {
        if !self.contains_line(line_number) {
            return (0, 0);
        }
        let first = if line_number == self.start().y {
            self.start().x
        } else {
            0
        };
        let last = if line_number == self.end().y {
            self.end().x
        } else {
            to
        };
        let begin = if first < from {
            from
        } else if first > to {
            to
        } else {
            first
        };
        let end = if last < begin {
            begin
        } else if last > to {
            to
        } else {
            last
        };
        (begin - from, end - from)
    }

    /// Sets the new end of this selection. The other endpoint stays as it
    /// is, whether `pos` comes before or after it.
    pub fn set_new_end(&mut self, pos: Cursor)
        ensures
            *final(self) == old(self).with_end(pos),
    {
        self.end = pos;
    }

    /// The earlier endpoint of the range.
    pub fn start(&self) -> (r: &Cursor)
        ensures
            *r == self.lower(),
    {
        if self.start < self.end {
            &self.start
        } else {
            &self.end
        }
    }

    /// The later endpoint of the range.
    pub fn end(&self) -> (r: &Cursor)
        ensures
            *r == self.upper(),
    {
        if self.start < self.end {
            &self.end
        } else {
            &self.start
        }
    }
}

/// The two ends of a range do not depend on which endpoint was assigned
/// first: swapping the endpoints leaves both ends as they were, the lower
/// end never comes after the upper end, and it comes strictly before it
/// whenever the two endpoints differ.
pub proof fn lemma_selection_ends_ordered(a: Cursor, b: Cursor)
    ensures
        (Selection { start: a, end: b }).lower() == (Selection { start: b, end: a }).lower(),
        (Selection { start: a, end: b }).upper() == (Selection { start: b, end: a }).upper(),
        (Selection { start: a, end: b }).lower() == a.min(b),
        (Selection { start: a, end: b }).upper() == a.max(b),
        !(Selection { start: a, end: b }).upper().before((Selection { start: a, end: b }).lower()),
        a != b ==> (Selection { start: a, end: b }).lower().before(
            (Selection { start: a, end: b }).upper(),
        ),
{
}

/// Moving the end of a range to a position before its other endpoint still
/// gives a range whose lower end is that position and whose upper end is
/// the other endpoint.
pub proof fn lemma_selection_end_before_start(sel: Selection, pos: Cursor)
    requires
        pos.before(sel.start),
    ensures
        sel.with_end(pos).lower() == pos,
        sel.with_end(pos).upper() == sel.start,
        sel.with_end(pos).lower().before(sel.with_end(pos).upper()),
{
}

} // verus!
