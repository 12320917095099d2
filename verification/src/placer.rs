//! The handle through which widgets are placed in the cells of a grid.
//!
//! A [`WidgetPlacer`] joins a [`GridLayout`] with the [`Region`] of the
//! enclosing layout. A widget asks it what space the next cell may use,
//! reports the size it needs and gets the rectangle to draw in; at the end of
//! a row the caller ends the row, and at the end of the grid closes it.

use crate::geometry::{finite, is_finite, Pos2, Rect, Vec2, SIZE_LIMIT};
use crate::grid::{left_center, GridLayout, GridModel, OverflowMarks};
use crate::layout::{Region, Style};
use crate::memory::MemoryStore;
use vstd::prelude::*;

verus! {

/// The mathematical view of a [`WidgetPlacer`].
pub struct PlacerModel {
    /// The grid that is being laid out.
    pub grid: GridModel,
    /// Where the enclosing layout stands.
    pub region: Region,
    /// The host's style.
    pub style: Style,
    /// What to paint over the cell that was reported last, as a debugging
    /// aid; nothing before the first cell.
    pub marks: OverflowMarks,
}

impl PlacerModel {
    /// The grid is well-formed and the space to fill is finite.
    pub open spec fn wf(self) -> bool {
        self.grid.wf() && self.region.max_rect.finite()
    }

    /// A widget can be reported: the insertion point is finite, and the
    /// next cell's column and row can be counted on.
    pub open spec fn can_advance(self) -> bool {
        &&& self.wf()
        &&& self.region.cursor.min.finite()
        &&& self.grid.col < usize::MAX
        &&& self.grid.row < usize::MAX
    }

    /// The current row can be ended: the insertion point is finite, and the
    /// next row can be counted on.
    pub open spec fn can_end_row(self) -> bool {
        &&& self.wf()
        &&& finite(self.region.cursor.min.y as int)
        &&& self.grid.row < usize::MAX
    }

    /// The rectangle that the next cell may use can be asked for.
    pub open spec fn can_offer(self) -> bool {
        self.wf() && self.grid.in_row() && self.region.cursor.min.finite()
    }

    /// The rectangle given to the next cell if its content has size
    /// `desired_size`.
    pub open spec fn frame(self, desired_size: Vec2) -> Rect {
        Rect::spec_from_min_size(self.region.cursor.min, self.grid.placed_size(desired_size))
    }

    /// Space for content of size `desired_size` can be allocated: the
    /// insertion point and the size are finite, the size is not negative,
    /// and the rectangle given to the cell is finite.
    pub open spec fn can_allocate(self, desired_size: Vec2) -> bool {
        &&& self.can_advance()
        &&& desired_size.finite()
        &&& desired_size.x >= 0
        &&& desired_size.y >= 0
        &&& self.frame(desired_size).finite()
    }

    /// The placer after a widget that took `widget_rect` within the cell's
    /// rectangle `frame_rect` was reported: the measurement is merged into
    /// the grid, the cursor has moved on by one column, and the region holds
    /// the cell's rectangle.
    pub open spec fn advance(self, frame_rect: Rect, widget_rect: Rect) -> PlacerModel {
        PlacerModel {
            grid: self.grid.advance(widget_rect.spec_size()),
            region: Region {
                min_rect: self.region.min_rect.spec_union(frame_rect),
                max_rect: self.region.max_rect.spec_union(frame_rect),
                cursor: Rect {
                    min: Pos2 {
                        x: (self.region.cursor.min.x + self.grid.col_step()) as i64,
                        y: self.region.cursor.min.y,
                    },
                    max: self.region.cursor.max,
                },
            },
            style: self.style,
            marks: self.grid.marks(widget_rect.spec_size()),
        }
    }

    /// The placer after space for content of size `desired_size` was
    /// allocated.
    pub open spec fn allocate(self, desired_size: Vec2) -> PlacerModel {
        self.advance(
            self.frame(desired_size),
            left_center(desired_size, self.frame(desired_size)),
        )
    }

    /// The placer after the current row was ended.
    pub open spec fn end_row(self) -> PlacerModel {
        PlacerModel {
            grid: self.grid.end_row(),
            region: Region {
                min_rect: self.region.min_rect,
                max_rect: self.region.max_rect,
                cursor: Rect {
                    min: Pos2 {
                        x: self.grid.initial_available.min.x,
                        y: (self.region.cursor.min.y + self.grid.row_step()) as i64,
                    },
                    max: self.region.cursor.max,
                },
            },
            style: self.style,
            marks: self.marks,
        }
    }
}

/// Content placed with [`left_center`] in a rectangle that is at least as
/// large lies within that rectangle and has exactly its own size.
pub proof fn lemma_left_center_within(size: Vec2, frame: Rect)
    requires
        size.finite(),
        frame.finite(),
        0 <= size.x <= frame.spec_width(),
        0 <= size.y <= frame.spec_height(),
    ensures
        left_center(size, frame).finite(),
        left_center(size, frame).spec_size() == size,
        frame.min.x <= left_center(size, frame).min.x,
        frame.min.y <= left_center(size, frame).min.y,
        left_center(size, frame).max.x <= frame.max.x,
        left_center(size, frame).max.y <= frame.max.y,
{
}

/// Places widgets in the cells of a grid, one after the other.
pub struct WidgetPlacer {
    grid: GridLayout,
    region: Region,
    style: Style,
    marks: OverflowMarks,
}

impl View for WidgetPlacer {
    type V = PlacerModel;

    closed spec fn view(&self) -> PlacerModel {
        PlacerModel {
            grid: self.grid@,
            region: self.region,
            style: self.style,
            marks: self.marks,
        }
    }
}

impl WidgetPlacer {
    /// The placer's view is well-formed.
    pub open spec fn wf(&self) -> bool {
        self@.wf()
    }

    /// A placer for the cells of `grid` within `region`.
    pub fn new(grid: GridLayout, region: Region, style: Style) -> (r: WidgetPlacer)
        ensures
            r@ == (PlacerModel {
                grid: grid@,
                region,
                style,
                marks: OverflowMarks { outline: false, width_lines: false },
            }),
    {
        WidgetPlacer {
            grid,
            region,
            style,
            marks: OverflowMarks { outline: false, width_lines: false },
        }
    }

    /// What to paint over the cell that was reported last, as a debugging
    /// aid.
    pub fn overflow_marks(&self) -> (r: OverflowMarks)
        ensures
            r == self@.marks,
    {
        self.marks
    }

    /// The grid that is being laid out.
    pub fn grid(&self) -> (r: &GridLayout)
        ensures
            r@ == self@.grid,
    {
        &self.grid
    }

    /// The host's style.
    pub fn style(&self) -> (r: Style)
        ensures
            r == self@.style,
    {
        self.style
    }

    /// Where the enclosing layout stands.
    pub fn region(&self) -> (r: Region)
        ensures
            r == self@.region,
    {
        self.region
    }

    /// The rectangle whose top-left corner is where the next widget goes.
    pub fn cursor(&self) -> (r: Rect)
        ensures
            r == self@.region.cursor,
    {
        self.region.cursor
    }

    /// Computes whether the placer's view is well-formed, given that its
    /// grid is.
    pub fn is_wf(&self) -> (r: bool)
        requires
            self@.grid.wf(),
        ensures
            r == self.wf(),
    {
        self.region.max_rect.is_finite()
    }

    /// Computes whether a widget can be reported, given that the grid is
    /// well-formed.
    pub fn can_advance(&self) -> (r: bool)
        requires
            self@.grid.wf(),
        ensures
            r == self@.can_advance(),
    {
        self.is_wf() && self.region.cursor.min.is_finite() && self.grid.col() < usize::MAX
            && self.grid.row() < usize::MAX
    }

    /// Computes whether the current row can be ended, given that the grid
    /// is well-formed.
    pub fn can_end_row(&self) -> (r: bool)
        requires
            self@.grid.wf(),
        ensures
            r == self@.can_end_row(),
    {
        self.is_wf() && is_finite(self.region.cursor.min.y) && self.grid.row() < usize::MAX
    }

    /// Computes whether the rectangle that the next cell may use can be
    /// asked for, given that the grid is well-formed.
    pub fn can_offer(&self) -> (r: bool)
        requires
            self@.grid.wf(),
        ensures
            r == self@.can_offer(),
    {
        self.is_wf() && self.grid.in_row() && self.region.cursor.min.is_finite()
    }

    /// Computes whether space for content of size `desired_size` can be
    /// allocated, given that the grid is well-formed.
    pub fn can_allocate(&self, desired_size: Vec2) -> (r: bool)
        requires
            self@.grid.wf(),
        ensures
            r == self@.can_allocate(desired_size),
    {
        if self.can_advance() && desired_size.is_finite() && desired_size.x >= 0 && desired_size.y
            >= 0 {
            self.grid.next_cell(self.region.cursor, desired_size).is_finite()
        } else {
            false
        }
    }

    /// The rectangle that the next cell may use, before it is measured.
    pub fn available_rect_before_wrap(&self) -> (r: Rect)
        requires
            self@.can_offer(),
        ensures
            r.min == self@.region.max_rect.spec_intersect(self@.region.cursor).min,
            r.spec_width() == self@.grid.offered_width(self@.region.cursor.min.x),
            r.spec_height() == self@.grid.offered_height(self@.region),
    {
        self.grid.available_rect(&self.region)
    }

    /// The size that the next cell may use, before it is measured.
    pub fn available_size(&self) -> (r: Vec2)
        requires
            self@.can_offer(),
        ensures
            r.x == self@.grid.offered_width(self@.region.cursor.min.x),
            r.y == self@.grid.offered_height(self@.region),
    {
        let rect = self.grid.available_rect(&self.region);
        proof {
            lemma_offer_bounded(self@);
        }
        rect.size()
    }

    /// Where a widget of no size would be placed: the middle of the
    /// rectangle that the next cell is given at the least.
    pub fn next_widget_position(&self) -> (r: Pos2)
        requires
            self.wf(),
            self@.region.cursor.min.finite(),
        ensures
            r == self@.frame(Vec2 { x: 0, y: 0 }).spec_center(),
    {
        self.grid.next_cell(self.region.cursor, Vec2 { x: 0, y: 0 }).center()
    }

    /// Reserves space for content of size `desired_size` in the next cell
    /// and moves on to the cell after it. Returns where to put the content:
    /// against the left edge of the cell's rectangle and half way between
    /// its top and its bottom.
    pub fn allocate_space(&mut self, desired_size: Vec2) -> (widget_rect: Rect)
        requires
            old(self)@.can_allocate(desired_size),
        ensures
            final(self)@ == old(self)@.allocate(desired_size),
            final(self).wf(),
            widget_rect == left_center(desired_size, old(self)@.frame(desired_size)),
            widget_rect.spec_size() == desired_size,
    {
        let frame_rect = self.grid.next_cell(self.region.cursor, desired_size);
        let widget_rect = self.grid.justify_and_align(frame_rect, desired_size);
        proof {
            lemma_left_center_within(desired_size, frame_rect);
        }
        self.advance_after_rects(frame_rect, widget_rect);
        widget_rect
    }

    /// Reserves space for content of size `desired_size` in the next cell
    /// and moves on to the cell after it. Returns the rectangle of exactly
    /// that size in which to put the content, and the rectangle in which the
    /// widget responds; in a grid the two are the same.
    pub fn allocate_exact_size(&mut self, desired_size: Vec2) -> (rects: (Rect, Rect))
        requires
            old(self)@.can_allocate(desired_size),
        ensures
            final(self)@ == old(self)@.allocate(desired_size),
            final(self).wf(),
            rects.1 == left_center(desired_size, old(self)@.frame(desired_size)),
            rects.0 == rects.1,
            rects.0.spec_size() == desired_size,
    {
        proof {
            lemma_left_center_within(desired_size, self@.frame(desired_size));
        }
        let response_rect = self.allocate_space(desired_size);
        let rect = self.grid.align_size_within_rect(desired_size, response_rect);
        (rect, response_rect)
    }

    /// Reports a widget that was placed at `rect` without asking: the grid
    /// takes `rect` for both the cell's rectangle and the widget's.
    pub fn allocate_rect(&mut self, rect: Rect)
        requires
            old(self)@.can_advance(),
            rect.finite(),
        ensures
            final(self)@ == old(self)@.advance(rect, rect),
            final(self).wf(),
    {
        self.advance_after_rects(rect, rect);
    }

    /// Reports a widget that took `widget_rect` within the cell's rectangle
    /// `frame_rect`.
    fn advance_after_rects(&mut self, frame_rect: Rect, widget_rect: Rect)
        requires
            old(self)@.can_advance(),
            frame_rect.finite(),
            widget_rect.finite(),
        ensures
            final(self)@ == old(self)@.advance(frame_rect, widget_rect),
            final(self).wf(),
    {
        self.marks = self.grid.advance(&mut self.region.cursor, frame_rect, widget_rect);
        self.region.min_rect = self.region.min_rect.union(frame_rect);
        self.region.max_rect = self.region.max_rect.union(frame_rect);
    }

    /// Whether text should wrap: as the style says, where it says; else as
    /// the grid says.
    pub fn wrap_text(&self) -> (r: bool)
        ensures
            r == match self@.style.wrap {
                Some(wrap) => wrap,
                None => finite(self@.grid.max_cell_size.x as int),
            },
    {
        match self.style.wrap {
            Some(wrap) => wrap,
            None => self.grid.wrap_text(),
        }
    }

    /// Ends the current row: the next cell is the first of the next row.
    /// Returns the stripe to paint behind the row that begins, if it gets
    /// one.
    pub fn end_row(&mut self) -> (stripe: Option<Rect>)
        requires
            old(self)@.can_end_row(),
        ensures
            final(self)@ == old(self)@.end_row(),
            final(self).wf(),
            stripe is Some <==> final(self)@.grid.stripe_due(),
            stripe matches Some(rect) ==> rect == final(self)@.grid.stripe(
                final(self)@.region.cursor.min,
            ),
    {
        self.grid.end_row(&mut self.region.cursor)
    }

    /// Closes the grid: commits what this frame measured if it differs from
    /// what was remembered, and says whether a repaint is owed.
    pub fn save(&self, store: &mut MemoryStore) -> (repaint: bool)
        ensures
            repaint == self@.grid.needs_commit(),
            final(store)@ == self@.grid.commit(old(store)@),
            self@.grid.wf() && old(store).wf() ==> final(store).wf(),
    {
        self.grid.save(store)
    }
}

/// What a placer offers to a cell is bounded: the width is at least 0 and at
/// most [`SIZE_LIMIT`], and the height is at most [`SIZE_LIMIT`] in
/// magnitude.
pub proof fn lemma_offer_bounded(placer: PlacerModel)
    requires
        placer.can_offer(),
    ensures
        0 <= placer.grid.offered_width(placer.region.cursor.min.x) <= SIZE_LIMIT,
        -SIZE_LIMIT <= placer.grid.offered_height(placer.region) <= SIZE_LIMIT,
{
}

} // verus!
