//! Positions inside the document.

use std::cmp::Ordering;
use vstd::prelude::*;
use vstd::std_specs::cmp::PartialOrdSpecImpl;

verus! {

/// A position in the document: `y` is the line, `x` the character offset
/// inside that line. This is a position in the text, not on the screen.
#[derive(Clone, Copy, Debug, Eq, PartialEq, Structural)]
pub struct Cursor {
    pub x: usize,
    pub y: usize,
}

impl Cursor {
    /// `self` comes strictly before `other`: on an earlier line, or on the
    /// same line at a smaller offset.
    pub open spec fn before(self, other: Cursor) -> bool {
        self.y < other.y || (self.y == other.y && self.x < other.x)
    }

    /// The total order of positions: by line first, then by offset.
    pub open spec fn order(self, other: Cursor) -> Ordering {
        if self.before(other) {
            Ordering::Less
        } else if self == other {
            Ordering::Equal
        } else {
            Ordering::Greater
        }
    }

    /// The position one column to the right on the same line. The column
    /// stays as it is where it cannot grow.
    pub open spec fn next_column(self) -> Cursor {
        Cursor {
            x: if self.x < usize::MAX {
                (self.x + 1) as usize
            } else {
                self.x
            },
            y: self.y,
        }
    }

    /// The earlier of two positions.
    pub open spec fn min(self, other: Cursor) -> Cursor {
        if self.before(other) {
            self
        } else {
            other
        }
    }

    /// The later of two positions.
    pub open spec fn max(self, other: Cursor) -> Cursor {
        if self.before(other) {
            other
        } else {
            self
        }
    }
}

impl PartialOrd for Cursor {
    fn partial_cmp(&self, other: &Self) -> (r: Option<Ordering>) {
        if self.y < other.y {
            Some(Ordering::Less)
        } else if self.y == other.y {
            if self.x < other.x {
                Some(Ordering::Less)
            } else if self.x == other.x {
                Some(Ordering::Equal)
            } else {
                Some(Ordering::Greater)
            }
        } else {
            Some(Ordering::Greater)
        }
    }
}

impl PartialOrdSpecImpl for Cursor {
    open spec fn obeys_partial_cmp_spec() -> bool {
        true
    }

    open spec fn partial_cmp_spec(&self, other: &Cursor) -> Option<Ordering> {
        Some(self.order(*other))
    }
}

/// The order of positions is total: of two distinct positions exactly one
/// comes before the other, and no position comes before itself.
pub proof fn lemma_cursor_order_total(a: Cursor, b: Cursor)
    ensures
        a.before(b) || b.before(a) || a == b,
        !(a.before(b) && b.before(a)),
        !a.before(a),
{
}

/// The order of positions is transitive.
pub proof fn lemma_cursor_order_transitive(a: Cursor, b: Cursor, c: Cursor)
    requires
        a.before(b),
        b.before(c),
    ensures
        a.before(c),
{
}

} // verus!
