//! Scroll-follow: moving the visible window just far enough to keep the
//! cursor inside it.

use vstd::prelude::*;
use crate::viewport::saturate;
use crate::viewport::Viewport;
use crate::viewport::Window;

verus! {

/// The offset at which a window of `length` cells starts after it has followed
/// the cursor, given the offset `prev_top` at which it started before.
///
/// A cursor before the window pulls the start of the window onto itself. A
/// cursor behind the window pulls the end of the window onto itself. A cursor
/// inside the window leaves it where it is.
pub open spec fn next_top(prev_top: u16, cursor: u16, length: u16) -> u16 {
    if cursor < prev_top {
        cursor
    } else if prev_top + length <= cursor {
        saturate(cursor + 1 - length)
    } else {
        prev_top
    }
}

/// Both axes of a window after following the cursor into a drawing area of the
/// given size, which the window then records.
pub open spec fn followed(w: Window, cursor_row: u16, cursor_col: u16, width: u16, height: u16) -> Window {
    Window {
        top_row: next_top(w.top_row, cursor_row, height),
        top_col: next_top(w.top_col, cursor_col, width),
        width,
        height,
    }
}

/// How far two offsets are apart.
pub open spec fn distance(a: u16, b: u16) -> int {
    if a < b {
        b - a
    } else {
        a - b
    }
}

/// Computes the next offset of a window along one axis.
///
/// The window only moves when the cursor has left it, and then only as far as
/// needed. Whenever the window has any extent, the cursor ends up inside it.
/// The sum is taken in 32 bits, so no combination of arguments overflows.
pub fn next_scroll_top(prev_top: u16, cursor: u16, length: u16) -> (top: u16)
    ensures
        top == next_top(prev_top, cursor, length),
        cursor < prev_top ==> top == cursor,
        prev_top <= cursor < prev_top + length ==> top == prev_top,
        prev_top + length <= cursor && cursor + 1 - length <= u16::MAX ==> top == cursor + 1 - length,
        length > 0 ==> top <= cursor < top + length,
{
    if cursor < prev_top {
        cursor
    } else if prev_top as u32 + length as u32 <= cursor as u32 {
        let target: u32 = cursor as u32 + 1 - length as u32;
        if target > 0xffff {
            0xffff
        } else {
            target as u16
        }
    } else {
        prev_top
    }
}

impl Viewport {
    /// One scroll-follow update: reads the offsets of the last frame, lets
    /// both axes follow the cursor into an area of `width` by `height` cells,
    /// and records the new offsets together with that size. Returns the new
    /// top row and column.
    pub fn follow_cursor(&mut self, cursor_row: u16, cursor_col: u16, width: u16, height: u16) -> (top: (u16, u16))
        ensures
            final(self)@ == followed(old(self)@, cursor_row, cursor_col, width, height),
            top == (final(self)@.top_row, final(self)@.top_col),
            height > 0 ==> top.0 <= cursor_row < top.0 + height,
            width > 0 ==> top.1 <= cursor_col < top.1 + width,
    {
        let (prev_row, prev_col): (u16, u16) = self.scroll_top();
        let top_row: u16 = next_scroll_top(prev_row, cursor_row, height);
        let top_col: u16 = next_scroll_top(prev_col, cursor_col, width);
        self.store(top_row, top_col, width, height);
        (top_row, top_col)
    }
}

/// Following the cursor a second time changes nothing: the offset that one
/// update arrives at is kept by the next update for the same cursor and
/// length. A window without extent is left out, as it can never hold the
/// cursor; at the largest coordinate it stays put all the same.
pub proof fn lemma_next_top_idempotent(prev_top: u16, cursor: u16, length: u16)
    requires
        length > 0 || cursor == u16::MAX,
    ensures
        next_top(next_top(prev_top, cursor, length), cursor, length) == next_top(prev_top, cursor, length),
{
}

/// Scroll-follow never moves the window further than it must: of all offsets
/// that would put the cursor inside a window of `length` cells, the one it
/// picks lies nearest to where the window was.
pub proof fn lemma_next_top_moves_least(prev_top: u16, cursor: u16, length: u16, other: u16)
    requires
        length > 0,
        other <= cursor < other + length,
    ensures
        distance(next_top(prev_top, cursor, length), prev_top) <= distance(other, prev_top),
{
}

} // verus!
