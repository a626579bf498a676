//! The part of the document that the screen shows.

use std::ops::Range;
use vstd::prelude::*;
use crate::text::char_count;

verus! {

/// Helper class to hold information about the usable screen
#[derive(Clone, Copy, Debug)]
pub struct Screen {
    /// Index of the top of the screen
    pub top: i32,
    /// Maximum size (in displayable characters)
    pub h: i32,
    pub w: i32,
}

/// The `k`-th piece of a line of `n` characters cut into pieces of `w`:
/// where it starts and where it ends. The last piece ends with the line.
pub open spec fn piece(n: int, w: int, k: int) -> (int, int) {
    (
        k * w,
        if (k + 1) * w < n {
            (k + 1) * w
        } else {
            n
        },
    )
}

/// How many pieces of `w` characters a line of `n` characters is cut into.
pub open spec fn piece_count(n: int, w: int) -> int {
    if n <= 0 {
        0
    } else {
        (n - 1) / w + 1
    }
}

impl Screen {
    /// The screen shows line `line_number`.
    pub open spec fn shows(self, line_number: int) -> bool {
        self.top <= line_number < self.top + self.h
    }

    /// The screen after the cursor moved up from line `y`: it scrolls up
    /// by one line when that was its top line.
    pub open spec fn scrolled_up(self, y: int) -> Screen {
        if y > 0 && y == self.top {
            Screen { top: (self.top - 1) as i32, h: self.h, w: self.w }
        } else {
            self
        }
    }

    /// The screen after the cursor moved down from line `y`: it scrolls
    /// down by one line when that was its bottom line.
    pub open spec fn scrolled_down(self, y: int) -> Screen {
        if y == self.top + self.h - 1 && self.top < i32::MAX {
            Screen { top: (self.top + 1) as i32, h: self.h, w: self.w }
        } else {
            self
        }
    }

    /// The index of the first line below the screen.
    pub fn max_line(&self) -> (r: i32)
        requires
            i32::MIN <= self.h + self.top <= i32::MAX,
        ensures
            r == self.h + self.top,
    {
        self.h + self.top
    }

    /// Returns the ranges of character offsets where to split the provided
    /// line so that each piece fits the width of the screen. The pieces
    /// follow each other and cover the line; an empty line has none.
    pub fn split_line(&self, line: &String) -> (idx: Vec<Range<usize>>)
        requires
            self.w > 0,
        ensures
            idx.len() == piece_count(line@.len() as int, self.w as int),
            forall|k: int|
                0 <= k < idx.len() ==> (#[trigger] idx[k].start as int, idx[k].end as int) == piece(
                    line@.len() as int,
                    self.w as int,
                    k,
                ),
    {
        let n = char_count(line);
        let w = self.w as usize;
        let mut idx: Vec<Range<usize>> = Vec::new();
        let mut i: usize = 0;
        let mut done = n == 0;
        assert(idx.len() * w == 0) by (nonlinear_arith)
            requires
                idx.len() == 0,
        ;
        while !done
            invariant
                n == line@.len(),
                w == self.w,
                w > 0,
                !done ==> i == idx.len() * w,
                !done ==> i < n,
                !done ==> idx.len() < piece_count(n as int, w as int),
                done ==> idx.len() == piece_count(n as int, w as int),
                forall|k: int|
                    0 <= k < idx.len() ==> (#[trigger] idx[k].start as int, idx[k].end as int)
                        == piece(n as int, w as int, k),
            decreases n - i, (if done { 0int } else { 1int }),
        {
            let ghost k = idx.len() as int;
            if n - i <= w {
                proof {
                    lemma_last_piece(n as int, w as int, k);
                }
                idx.push(i..n);
                done = true;
            } else {
                proof {
                    lemma_inner_piece(n as int, w as int, k);
                }
                idx.push(i..i + w);
                i += w;
            }
        }
        idx
    }

    /// Tells whether the screen shows the given line.
    pub fn is_line_visible(&self, line_number: i32) -> (r: bool)
        ensures
            r == self.shows(line_number as int),
    {
        line_number >= self.top && (line_number as i64) < (self.top as i64) + (self.h as i64)
    }

    /// Scrolls up by one line if the cursor moves up from the top line.
    pub fn scroll_up_from(&mut self, y: usize)
        ensures
            *final(self) == old(self).scrolled_up(y as int),
    {
        if y > 0 && self.top > 0 && (self.top as u64) == (y as u64) {
            self.top -= 1;
        }
    }

    /// Scrolls down by one line if the cursor moves down from the bottom line.
    pub fn scroll_down_from(&mut self, y: usize)
        ensures
            *final(self) == old(self).scrolled_down(y as int),
    {
        let last: i64 = (self.top as i64) + (self.h as i64) - 1;
        if last >= 0 && (last as u64) == (y as u64) && self.top < i32::MAX {
            self.top += 1;
        }
    }
}

/// The piece that reaches the end of the line is the last one.
pub proof fn lemma_last_piece(n: int, w: int, k: int)
    requires
        w > 0,
        0 <= k,
        k * w < n <= k * w + w,
    ensures
        piece_count(n, w) == k + 1,
        piece(n, w, k) == (k * w, n),
{
    assert((k + 1) * w == k * w + w) by (nonlinear_arith);
    assert((n - 1) / w == k) by (nonlinear_arith)
        requires
            w > 0,
            0 <= k,
            k * w <= n - 1 < k * w + w,
    ;
}

/// A piece that ends before the end of the line has its full width and is
/// followed by another one.
pub proof fn lemma_inner_piece(n: int, w: int, k: int)
    requires
        w > 0,
        0 <= k,
        k * w + w < n,
    ensures
        piece_count(n, w) > k + 1,
        piece(n, w, k) == (k * w, k * w + w),
        (k + 1) * w == k * w + w,
{
    assert((k + 1) * w == k * w + w) by (nonlinear_arith);
    assert((n - 1) / w >= k + 1) by (nonlinear_arith)
        requires
            w > 0,
            0 <= k,
            (k + 1) * w <= n - 1,
    ;
}

} // verus!
