//! The part of drawing a text area that decides instead of paints: where the
//! text goes inside an optional border, how far the window has to scroll to
//! keep the cursor visible, and which lines of the buffer are to be drawn.

use vstd::prelude::*;
use crate::follow::followed;
use crate::viewport::Viewport;

verus! {

/// A border with titles and padding, as `ratatui` draws it. Nothing of its
/// contents is visible to the proofs in this crate.
#[verifier::external_type_specification]
#[verifier::external_body]
pub struct ExBlock<'a>(ratatui::widgets::Block<'a>);

/// A rectangle of terminal cells: its top-left corner and its size.
#[derive(Clone, Copy, Debug, PartialEq, Eq, Structural)]
pub struct Area {
    pub x: u16,
    pub y: u16,
    pub width: u16,
    pub height: u16,
}

impl Area {
    /// `self` is what may be left of `outer` once space has been taken off its
    /// sides: the corner has not moved up or left, and the size has not grown.
    pub open spec fn cut_from(self, outer: Area) -> bool {
        &&& outer.x <= self.x
        &&& outer.y <= self.y
        &&& self.width <= outer.width
        &&& self.height <= outer.height
    }
}

/// The area that `block` leaves for its contents when it is drawn into
/// `area`, as `Block::inner` of `ratatui` computes it from the block's
/// borders, titles and padding.
pub uninterp spec fn block_inner_area(block: ratatui::widgets::Block<'_>, area: Area) -> Area;

/// `Block::inner` of `ratatui`: the area that a block leaves for its contents
/// when it is drawn into `area`.
///
/// Not proved, and taken from the way `ratatui` computes it. The result
/// depends on nothing but the block and the area, so it has a name. Borders,
/// titles and padding only ever move the corner down and right, and only ever
/// take cells off the width and the height, all with saturating arithmetic.
/// How much they take depends on the block, so no more is claimed.
#[verifier::external_body]
fn block_inner(block: &ratatui::widgets::Block<'_>, area: Area) -> (inner: Area)
    ensures
        inner == block_inner_area(*block, area),
        inner.cut_from(area),
{
    let rect = block.inner(ratatui::layout::Rect {
        x: area.x,
        y: area.y,
        width: area.width,
        height: area.height,
    });
    Area { x: rect.x, y: rect.y, width: rect.width, height: rect.height }
}

/// The end of the range of buffer lines that a window of `height` rows
/// starting at `top_row` shows: the window's own end, or the end of the buffer
/// where that comes first.
pub open spec fn visible_end(top_row: u16, height: u16, line_count: usize) -> usize {
    if top_row + height < line_count {
        (top_row + height) as usize
    } else {
        line_count
    }
}

/// The buffer lines to draw, as a half-open range `(first, end)` of line
/// indices. The range is well formed whenever the window starts inside the
/// buffer or directly behind its last line.
pub fn visible_rows(top_row: u16, height: u16, line_count: usize) -> (rows: (usize, usize))
    ensures
        rows.0 == top_row,
        rows.1 == visible_end(top_row, height, line_count),
        top_row <= line_count ==> rows.0 <= rows.1 <= line_count,
{
    let first: usize = top_row as usize;
    let window_end: usize = first + height as usize;
    (first, if window_end < line_count { window_end } else { line_count })
}

/// What has been decided for one frame.
#[derive(Clone, Copy, Debug, PartialEq, Eq, Structural)]
pub struct RenderPlan {
    /// Where the text is drawn: the area inside the block, or the whole area.
    pub text_area: Area,
    /// The buffer row shown in the first row of `text_area`.
    pub top_row: u16,
    /// The buffer column shown in the first column of `text_area`.
    pub top_col: u16,
    /// Index of the first buffer line to draw.
    pub first_line: usize,
    /// Index behind the last buffer line to draw.
    pub end_line: usize,
}

/// A text area about to be drawn, with the block that is drawn around it.
pub struct TextAreaWidget<'a> {
    pub block: Option<ratatui::widgets::Block<'a>>,
}

impl<'a> Default for TextAreaWidget<'a> {
    fn default() -> (widget: Self)
        ensures
            widget.block is None,
    {
        TextAreaWidget { block: None }
    }
}

impl<'a> TextAreaWidget<'a> {
    /// A text area without a block.
    pub fn new() -> (widget: Self)
        ensures
            widget.block is None,
    {
        TextAreaWidget { block: None }
    }

    /// Sets the block to draw around the text area.
    pub fn block<'b: 'a>(self, block: ratatui::widgets::Block<'b>) -> (widget: Self)
        ensures
            widget.block == Some(block),
    {
        TextAreaWidget { block: Some(block) }
    }

    /// The area that is left for the text when the widget is drawn into
    /// `area`: all of it without a block, else what the block leaves.
    pub open spec fn area_inside(&self, area: Area) -> Area {
        match self.block {
            Some(block) => block_inner_area(block, area),
            None => area,
        }
    }

    /// The area that is left for the text when the widget is drawn into
    /// `area`: all of it without a block, else what the block leaves. A block
    /// never moves the corner up or left and never adds to the size.
    pub fn inner_area(&self, area: Area) -> (inner: Area)
        ensures
            inner == self.area_inside(area),
            inner.cut_from(area),
    {
        match &self.block {
            Some(block) => block_inner(block, area),
            None => area,
        }
    }

    /// Decides one frame. The text goes into the inner area; the viewport
    /// follows the cursor into that area and records the area's size for the
    /// next frame; the lines to draw are those that the window then covers.
    pub fn plan(
        &self,
        area: Area,
        viewport: &mut Viewport,
        cursor_row: u16,
        cursor_col: u16,
        line_count: usize,
    ) -> (plan: RenderPlan)
        ensures
            plan.text_area == self.area_inside(area),
            plan.text_area.cut_from(area),
            final(viewport)@ == followed(
                old(viewport)@,
                cursor_row,
                cursor_col,
                plan.text_area.width,
                plan.text_area.height,
            ),
            plan.top_row == final(viewport)@.top_row,
            plan.top_col == final(viewport)@.top_col,
            plan.first_line == plan.top_row,
            plan.end_line == visible_end(plan.top_row, plan.text_area.height, line_count),
            cursor_row < line_count ==> plan.first_line <= plan.end_line <= line_count,
    {
        let text_area: Area = self.inner_area(area);
        let (top_row, top_col): (u16, u16) = viewport.follow_cursor(
            cursor_row,
            cursor_col,
            text_area.width,
            text_area.height,
        );
        let (first_line, end_line): (usize, usize) = visible_rows(top_row, text_area.height, line_count);
        RenderPlan { text_area, top_row, top_col, first_line, end_line }
    }
}

} // verus!
