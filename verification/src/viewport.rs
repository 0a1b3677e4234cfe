//! The persistent scroll state of a text area: where the visible window
//! starts in the buffer, and how large the drawing area was in the last frame.

use vstd::prelude::*;

verus! {

/// What a [`Viewport`] records: the buffer coordinates of the first visible
/// row and column, and the size in cells of the area that was drawn last.
#[derive(Clone, Copy, Debug, PartialEq, Eq, Structural)]
pub struct Window {
    pub top_row: u16,
    pub top_col: u16,
    pub width: u16,
    pub height: u16,
}

/// `v` brought into the range of a coordinate: values below zero become zero,
/// values above the largest coordinate become the largest coordinate.
pub open spec fn saturate(v: int) -> u16 {
    if v < 0 {
        0
    } else if v > u16::MAX {
        u16::MAX
    } else {
        v as u16
    }
}

/// The last coordinate covered by `length` cells that start at `top`. It is
/// never before `top`, not even for a length of zero.
pub open spec fn last_visible(top: u16, length: u16) -> u16 {
    let end = saturate(top + length);
    if end - 1 > top {
        (end - 1) as u16
    } else {
        top
    }
}

/// The window after its top-left corner has been moved by the given number of
/// rows and columns. The size is kept; the corner stops at either end of the
/// coordinate range.
pub open spec fn scrolled(w: Window, rows: int, cols: int) -> Window {
    Window { top_row: saturate(w.top_row + rows), top_col: saturate(w.top_col + cols), ..w }
}

/// The window encoded in one word. From the most significant 16 bits down:
/// width, height, top row, top column.
spec fn unpack(word: u64) -> Window {
    Window {
        top_row: (word >> 16) as u16,
        top_col: word as u16,
        width: (word >> 48) as u16,
        height: (word >> 32) as u16,
    }
}

/// Packing four fields and reading them back gives the same four fields.
proof fn lemma_pack_unpack(row: u16, col: u16, width: u16, height: u16)
    ensures
        unpack(((width as u64) << 48) | ((height as u64) << 32) | ((row as u64) << 16) | (col as u64))
            == (Window { top_row: row, top_col: col, width, height }),
{
    let word = ((width as u64) << 48) | ((height as u64) << 32) | ((row as u64) << 16) | (col as u64);
    assert((word >> 48) as u16 == width && (word >> 32) as u16 == height && (word >> 16) as u16 == row
        && word as u16 == col) by (bit_vector)
        requires
            word == ((width as u64) << 48) | ((height as u64) << 32) | ((row as u64) << 16) | (col as u64),
    ;
}

/// Overwriting the low half of a word replaces the two offsets and keeps the
/// size.
proof fn lemma_replace_top(word: u64, row: u16, col: u16)
    ensures
        unpack((word & 0xffff_ffff_0000_0000) | ((row as u64) << 16) | (col as u64))
            == (Window { top_row: row, top_col: col, ..unpack(word) }),
{
    let next = (word & 0xffff_ffff_0000_0000) | ((row as u64) << 16) | (col as u64);
    assert((next >> 48) as u16 == (word >> 48) as u16 && (next >> 32) as u16 == (word >> 32) as u16
        && (next >> 16) as u16 == row && next as u16 == col) by (bit_vector)
        requires
            next == (word & 0xffff_ffff_0000_0000) | ((row as u64) << 16) | (col as u64),
    ;
}

/// One offset moved by a signed distance, stopping at either end of the range.
fn apply_scroll(pos: u16, delta: i16) -> (moved: u16)
    ensures
        moved == saturate(pos + delta),
{
    let target: i32 = pos as i32 + delta as i32;
    if target < 0 {
        0
    } else if target > 0xffff {
        0xffff
    } else {
        target as u16
    }
}

/// Scroll offsets and last drawn size, kept in a single word so that all four
/// fields are always replaced together.
#[derive(Debug)]
pub struct Viewport(u64);

impl View for Viewport {
    type V = Window;

    closed spec fn view(&self) -> Window {
        unpack(self.0)
    }
}

impl Default for Viewport {
    /// A viewport at the origin that has not seen a drawing area yet.
    fn default() -> (viewport: Self)
        ensures
            viewport@ == (Window { top_row: 0, top_col: 0, width: 0, height: 0 }),
    {
        proof {
            assert((0u64 >> 48) as u16 == 0 && (0u64 >> 32) as u16 == 0 && (0u64 >> 16) as u16 == 0 && 0u64 as u16
                == 0) by (bit_vector);
        }
        Viewport(0)
    }
}

impl Clone for Viewport {
    /// A snapshot: an independent viewport that holds what this one holds now.
    fn clone(&self) -> (copy: Self)
        ensures
            copy == *self,
            copy@ == self@,
    {
        Viewport(self.0)
    }
}

impl Viewport {
    /// The buffer row and column shown in the top-left cell.
    pub fn scroll_top(&self) -> (top: (u16, u16))
        ensures
            top == (self@.top_row, self@.top_col),
    {
        let u: u64 = self.0;
        (#[verifier::truncate] ((u >> 16) as u16), #[verifier::truncate] (u as u16))
    }

    /// All four fields, as `(top row, top column, width, height)`.
    pub fn rect(&self) -> (rect: (u16, u16, u16, u16))
        ensures
            rect == (self@.top_row, self@.top_col, self@.width, self@.height),
    {
        let u: u64 = self.0;
        let width: u16 = #[verifier::truncate] ((u >> 48) as u16);
        let height: u16 = #[verifier::truncate] ((u >> 32) as u16);
        let row: u16 = #[verifier::truncate] ((u >> 16) as u16);
        let col: u16 = #[verifier::truncate] (u as u16);
        (row, col, width, height)
    }

    /// The visible window as inclusive bounds
    /// `(top row, left column, bottom row, right column)`. The bottom-right
    /// corner is never above or left of the top-left one, whatever the size.
    pub fn position(&self) -> (bounds: (u16, u16, u16, u16))
        ensures
            bounds == (
                self@.top_row,
                self@.top_col,
                last_visible(self@.top_row, self@.height),
                last_visible(self@.top_col, self@.width),
            ),
            bounds.0 <= bounds.2,
            bounds.1 <= bounds.3,
    {
        let (row_top, col_top, width, height): (u16, u16, u16, u16) = self.rect();
        let row_bottom: u16 = row_top.saturating_add(height).saturating_sub(1);
        let col_bottom: u16 = col_top.saturating_add(width).saturating_sub(1);
        (
            row_top,
            col_top,
            if row_bottom < row_top { row_top } else { row_bottom },
            if col_bottom < col_top { col_top } else { col_bottom },
        )
    }

    /// Replaces all four fields at once.
    pub fn store(&mut self, row: u16, col: u16, width: u16, height: u16)
        ensures
            final(self)@ == (Window { top_row: row, top_col: col, width, height }),
    {
        proof {
            lemma_pack_unpack(row, col, width, height);
        }
        self.0 = ((width as u64) << 48) | ((height as u64) << 32) | ((row as u64) << 16) | (col as u64);
    }

    /// Moves the top-left corner by `rows` and `cols`. Negative distances move
    /// towards the origin and stop there; positive ones stop at the largest
    /// coordinate. The recorded size stays as it is.
    pub fn scroll(&mut self, rows: i16, cols: i16)
        ensures
            final(self)@ == scrolled(old(self)@, rows as int, cols as int),
    {
        let u: u64 = self.0;
        let row: u16 = apply_scroll(#[verifier::truncate] ((u >> 16) as u16), rows);
        let col: u16 = apply_scroll(#[verifier::truncate] (u as u16), cols);
        proof {
            lemma_replace_top(u, row, col);
        }
        self.0 = (u & 0xffff_ffff_0000_0000) | ((row as u64) << 16) | (col as u64);
    }
}

/// Scrolling by some distance and then by the opposite distance leads back to
/// where the window was, provided that the first move did not run into either
/// end of the coordinate range.
pub proof fn lemma_scroll_there_and_back(w: Window, rows: int, cols: int)
    requires
        0 <= w.top_row + rows <= u16::MAX,
        0 <= w.top_col + cols <= u16::MAX,
    ensures
        scrolled(scrolled(w, rows, cols), -rows, -cols) == w,
{
}

} // verus!
