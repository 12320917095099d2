//! The grid engine: prediction, placement, cursor advancement and commit.
//!
//! A [`Grid`] names a grid and its options. Opening it against a
//! [`MemoryStore`] gives a [`GridLayout`], which lives for one traversal of
//! the grid's cells within one frame: for each cell it offers a rectangle
//! ([`GridLayout::available_rect`]), places the measured content
//! ([`GridLayout::next_cell`]), folds the measurement into the frame's
//! accumulator and moves on ([`GridLayout::advance`]); at the end of each row
//! it moves to the next row ([`GridLayout::end_row`]); at the end of the grid
//! it commits what was measured if it differs from what was remembered
//! ([`GridLayout::save`]).
//!
//! [`GridModel`] is the mathematical view of a [`GridLayout`]; the contracts
//! of the engine are stated over it.

use crate::geometry::{
    at_least, at_most, finite, half, half_floor, is_finite, max_int, max_of, min_int, Pos2, Rect,
    Vec2, INFINITY, SIZE_LIMIT,
};
use crate::layout::{Region, Style};
use crate::memory::{Memory, MemoryStore, State};
use vstd::prelude::*;

verus! {

/// How far a stripe reaches beyond the grid on its left and on its right.
pub const STRIPE_MARGIN: i64 = 2;

/// What to paint over a cell that outgrew the size predicted for it. It is a
/// debugging aid and has no effect on sizing.
#[derive(Clone, Copy, Debug, PartialEq, Eq, Structural)]
pub struct OverflowMarks {
    /// Outline the cell.
    pub outline: bool,
    /// Mark the cell's left edge, right edge and horizontal centre line.
    pub width_lines: bool,
}

/// What `store` remembers under `id`, if anything.
pub open spec fn remembered(store: Map<u64, Memory>, id: u64) -> Option<Memory> {
    if store.contains_key(id) {
        Some(store[id])
    } else {
        None
    }
}

/// A length that is finite or stands for "unbounded".
pub open spec fn finite_or_unbounded(v: i64) -> bool {
    finite(v as int) || v == INFINITY
}

/// The rectangle of size `size` that lies against the left edge of `frame`
/// and half way between its top and its bottom.
pub open spec fn left_center(size: Vec2, frame: Rect) -> Rect {
    Rect::spec_from_min_size(
        Pos2 { x: frame.min.x, y: half(frame.min.y + frame.max.y - size.y) as i64 },
        size,
    )
}

/// The mathematical view of a [`GridLayout`].
pub struct GridModel {
    /// The identifier under which the grid's sizes are remembered.
    pub id: u64,
    /// Nothing was remembered for this grid when it was opened.
    pub is_first_frame: bool,
    /// The sizes remembered from the previous frame; empty on the first.
    pub prev: Memory,
    /// The sizes measured so far on this frame.
    pub curr: Memory,
    /// The space the grid had when it was opened.
    pub initial_available: Rect,
    /// The number of columns, if given; it tells which column is the last.
    pub num_columns: Option<usize>,
    /// The spacing between neighbouring columns and rows.
    pub spacing: Vec2,
    /// The least size of a cell.
    pub min_cell_size: Vec2,
    /// The greatest size offered to a cell; [`INFINITY`] where unbounded.
    pub max_cell_size: Vec2,
    /// Whether odd rows get a background stripe.
    pub striped: bool,
    /// Whether to mark cells that turned out wider than predicted.
    pub show_expand_width: bool,
    /// Whether to mark cells that turned out taller than predicted.
    pub show_expand_height: bool,
    /// The column of the next cell.
    pub col: nat,
    /// The row of the next cell.
    pub row: nat,
}

impl GridModel {
    /// The sizes are bounded, the geometry is finite, the spacing is not
    /// negative, and the stripe of a striped grid fits the coordinate range.
    pub open spec fn wf(self) -> bool {
        &&& self.prev.wf()
        &&& self.curr.wf()
        &&& self.initial_available.finite()
        &&& self.spacing.finite()
        &&& self.spacing.x >= 0
        &&& self.spacing.y >= 0
        &&& self.min_cell_size.finite()
        &&& finite_or_unbounded(self.max_cell_size.x)
        &&& finite_or_unbounded(self.max_cell_size.y)
        &&& self.striped ==> self.prev.full_width(self.spacing.x as int) <= SIZE_LIMIT
    }

    /// The width remembered for column `col`, or the least cell width where
    /// none is remembered.
    pub open spec fn prev_col_width(self, col: nat) -> i64 {
        match self.prev.col_width(col) {
            Some(w) => w,
            None => self.min_cell_size.x,
        }
    }

    /// The height remembered for row `row`, or the least cell height where
    /// none is remembered.
    pub open spec fn prev_row_height(self, row: nat) -> i64 {
        match self.prev.row_height(row) {
            Some(h) => h,
            None => self.min_cell_size.y,
        }
    }

    /// The width measured so far on this frame in the current column, if any.
    pub open spec fn curr_col_width(self) -> Option<i64> {
        self.curr.col_width(self.col)
    }

    /// The next cell is in the last column.
    pub open spec fn is_last_column(self) -> bool {
        self.num_columns matches Some(n) && self.col + 1 == n
    }

    /// The next cell is within the number of columns, where one was given.
    pub open spec fn in_row(self) -> bool {
        self.num_columns matches Some(n) ==> self.col < n
    }

    /// The width offered to the next cell before it is measured, for a cursor
    /// whose left edge is at `cursor_left`.
    ///
    /// - In the last column, on the first frame: what was measured so far on
    ///   this frame in this column, else the least cell width. On later
    ///   frames: the space left of the initial width, up to the greatest cell
    ///   width.
    /// - In another column, where the greatest cell width is finite: that
    ///   width. Where it is unbounded: the remembered width of the column,
    ///   else what was measured so far on this frame in this column, else the
    ///   least cell width.
    /// - In every case at least what was measured so far on this frame in
    ///   this column.
    pub open spec fn offered_width(self, cursor_left: i64) -> int {
        let base: int = if self.is_last_column() {
            if self.is_first_frame {
                match self.curr_col_width() {
                    Some(w) => w as int,
                    None => self.min_cell_size.x as int,
                }
            } else {
                min_int(self.initial_available.max.x - cursor_left, self.max_cell_size.x as int)
            }
        } else if finite(self.max_cell_size.x as int) {
            self.max_cell_size.x as int
        } else {
            match self.prev.col_width(self.col) {
                Some(w) => w as int,
                None => match self.curr_col_width() {
                    Some(w) => w as int,
                    None => self.min_cell_size.x as int,
                },
            }
        };
        max_int(
            base,
            match self.curr_col_width() {
                Some(w) => w as int,
                None => 0,
            },
        )
    }

    /// The height offered to the next cell before it is measured: what is
    /// left of the region below the insertion point, raised to the least cell
    /// height and then lowered to the greatest. No remembered height enters.
    pub open spec fn offered_height(self, region: Region) -> int {
        let top = max_of(region.max_rect.min.y, region.cursor.min.y);
        min_int(
            max_int(region.max_rect.max.y - top, self.min_cell_size.y as int),
            self.max_cell_size.y as int,
        )
    }

    /// The size of the rectangle in which a cell of size `child_size` is
    /// placed: in each direction the larger of the cell's own size and what
    /// the previous frame remembered, or the least cell size where it
    /// remembered nothing.
    pub open spec fn placed_size(self, child_size: Vec2) -> Vec2 {
        child_size.spec_max(
            Vec2 { x: self.prev_col_width(self.col), y: self.prev_row_height(self.row) },
        )
    }

    /// A cell measured as `measured` is wider than was predicted for it.
    pub open spec fn too_wide(self, measured: Vec2) -> bool {
        measured.x > self.prev_col_width(self.col)
    }

    /// A cell measured as `measured` is taller than was predicted for it.
    pub open spec fn too_high(self, measured: Vec2) -> bool {
        measured.y > self.prev_row_height(self.row)
    }

    /// What to paint over a cell measured as `measured`.
    pub open spec fn marks(self, measured: Vec2) -> OverflowMarks {
        OverflowMarks {
            outline: (self.show_expand_width && self.too_wide(measured)) || (
            self.show_expand_height && self.too_high(measured)),
            width_lines: self.show_expand_width && self.too_wide(measured),
        }
    }

    /// The engine after a cell measured as `measured` was reported: its
    /// width, raised to the least cell width, is merged into the current
    /// column, its height, raised to the least cell height, into the current
    /// row, and the next cell is one column on.
    pub open spec fn advance(self, measured: Vec2) -> GridModel {
        GridModel {
            curr: self.curr.grow_col(self.col, max_of(measured.x, self.min_cell_size.x)).grow_row(
                self.row,
                max_of(measured.y, self.min_cell_size.y),
            ),
            col: self.col + 1,
            ..self
        }
    }

    /// How far the cursor moves right when a cell is reported: the width the
    /// previous frame remembered for the column, or the least cell width, and
    /// the spacing.
    pub open spec fn col_step(self) -> int {
        self.prev_col_width(self.col) + self.spacing.x
    }

    /// How far the cursor moves down when the row ends: the spacing and the
    /// height measured on this frame for the row, or the least cell height
    /// where the row had no cell.
    pub open spec fn row_step(self) -> int {
        self.spacing.y + (match self.curr.row_height(self.row) {
            Some(h) => h,
            None => self.min_cell_size.y,
        })
    }

    /// The engine after the current row was ended: the next cell is the
    /// first of the next row.
    pub open spec fn end_row(self) -> GridModel {
        GridModel { col: 0, row: self.row + 1, ..self }
    }

    /// The row that begins next gets a stripe: the grid is striped, the row's
    /// index is odd, and the previous frame remembered a height for it.
    pub open spec fn stripe_due(self) -> bool {
        self.striped && self.row % 2 == 1 && self.prev.row_height(self.row) is Some
    }

    /// The stripe behind the row that begins at `anchor`: as wide as all
    /// remembered columns with their spacing and as tall as the remembered
    /// row, grown by half the row spacing above and below and by
    /// [`STRIPE_MARGIN`] on either side.
    pub open spec fn stripe(self, anchor: Pos2) -> Rect {
        Rect::spec_from_min_size(
            anchor,
            Vec2 {
                x: self.prev.full_width(self.spacing.x as int) as i64,
                y: self.prev_row_height(self.row),
            },
        ).spec_expand2(Vec2 { x: 0, y: half(self.spacing.y as int) as i64 }).spec_expand2(
            Vec2 { x: STRIPE_MARGIN, y: 0 },
        )
    }

    /// What was measured on this frame differs from what was remembered.
    pub open spec fn needs_commit(self) -> bool {
        self.curr != self.prev
    }

    /// The store after the grid was closed: where the frame measured what was
    /// remembered, the store as it was; else the store with this frame's
    /// sizes under the grid's identifier.
    pub open spec fn commit(self, store: Map<u64, Memory>) -> Map<u64, Memory> {
        if self.needs_commit() {
            store.insert(self.id, self.curr)
        } else {
            store
        }
    }
}

/// The layout of one grid on one frame.
pub struct GridLayout {
    id: u64,
    /// First frame (nothing was remembered).
    is_first_frame: bool,
    /// What the previous frame measured, if there was one. It predicts the
    /// sizes of this frame's cells.
    prev_state: State,
    /// What this frame has measured so far.
    curr_state: State,
    initial_available: Rect,
    // Options:
    num_columns: Option<usize>,
    spacing: Vec2,
    min_cell_size: Vec2,
    max_cell_size: Vec2,
    striped: bool,
    show_expand_width: bool,
    show_expand_height: bool,
    // Cursor:
    col: usize,
    row: usize,
}

impl View for GridLayout {
    type V = GridModel;

    closed spec fn view(&self) -> GridModel {
        GridModel {
            id: self.id,
            is_first_frame: self.is_first_frame,
            prev: self.prev_state@,
            curr: self.curr_state@,
            initial_available: self.initial_available,
            num_columns: self.num_columns,
            spacing: self.spacing,
            min_cell_size: self.min_cell_size,
            max_cell_size: self.max_cell_size,
            striped: self.striped,
            show_expand_width: self.show_expand_width,
            show_expand_height: self.show_expand_height,
            col: self.col as nat,
            row: self.row as nat,
        }
    }
}

impl GridLayout {
    /// The engine's view is well-formed.
    pub open spec fn wf(&self) -> bool {
        self@.wf()
    }

    /// The column of the next cell.
    pub fn col(&self) -> (r: usize)
        ensures
            r == self@.col,
    {
        self.col
    }

    /// The row of the next cell.
    pub fn row(&self) -> (r: usize)
        ensures
            r == self@.row,
    {
        self.row
    }

    /// Whether nothing was remembered for this grid when it was opened.
    pub fn is_first_frame(&self) -> (r: bool)
        ensures
            r == self@.is_first_frame,
    {
        self.is_first_frame
    }

    /// What the previous frame measured; empty on the first frame.
    pub fn prev_state(&self) -> (r: &State)
        ensures
            r@ == self@.prev,
    {
        &self.prev_state
    }

    /// What this frame has measured so far.
    pub fn curr_state(&self) -> (r: &State)
        ensures
            r@ == self@.curr,
    {
        &self.curr_state
    }

    /// Whether the next cell is within the number of columns, where one was
    /// given.
    pub fn in_row(&self) -> (r: bool)
        ensures
            r == self@.in_row(),
    {
        match self.num_columns {
            Some(n) => self.col < n,
            None => true,
        }
    }

    /// The width remembered for column `col`, or the least cell width where
    /// none is remembered.
    pub fn prev_col_width(&self, col: usize) -> (r: i64)
        ensures
            r == self@.prev_col_width(col as nat),
    {
        match self.prev_state.col_width(col) {
            Some(w) => w,
            None => self.min_cell_size.x,
        }
    }

    /// The height remembered for row `row`, or the least cell height where
    /// none is remembered.
    pub fn prev_row_height(&self, row: usize) -> (r: i64)
        ensures
            r == self@.prev_row_height(row as nat),
    {
        match self.prev_state.row_height(row) {
            Some(h) => h,
            None => self.min_cell_size.y,
        }
    }

    /// Whether text in a cell should wrap: it does where the greatest cell
    /// width is finite.
    pub fn wrap_text(&self) -> (r: bool)
        ensures
            r == finite(self@.max_cell_size.x as int),
    {
        is_finite(self.max_cell_size.x)
    }

    /// The rectangle that the next cell may use, before it is measured. Its
    /// top-left corner is the insertion point within the region.
    pub fn available_rect(&self, region: &Region) -> (r: Rect)
        requires
            self.wf(),
            self@.in_row(),
            region.max_rect.finite(),
            region.cursor.min.finite(),
        ensures
            r.min == region.max_rect.spec_intersect(region.cursor).min,
            r.spec_width() == self@.offered_width(region.cursor.min.x),
            r.spec_height() == self@.offered_height(*region),
    {
        let is_last_column = match self.num_columns {
            Some(n) => n > 0 && self.col == n - 1,
            None => false,
        };
        let measured = self.curr_state.col_width(self.col);

        let width = if is_last_column {
            // On the first frame the widths of the earlier columns are not
            // known, so the space that seems left says nothing.
            if self.is_first_frame {
                match measured {
                    Some(w) => w,
                    None => self.min_cell_size.x,
                }
            } else {
                at_most(
                    self.initial_available.right() - region.cursor.left(),
                    self.max_cell_size.x,
                )
            }
        } else if is_finite(self.max_cell_size.x) {
            self.max_cell_size.x
        } else {
            // A cell that fills what it is offered must not spill out of its
            // column.
            match self.prev_state.col_width(self.col) {
                Some(w) => w,
                None => match measured {
                    Some(w) => w,
                    None => self.min_cell_size.x,
                },
            }
        };

        // If something above was wider, this cell can be wider.
        let width = at_least(
            width,
            match measured {
                Some(w) => w,
                None => 0,
            },
        );

        let available = region.max_rect.intersect(region.cursor);

        let height = region.max_rect.max.y - available.top();
        let height = at_most(at_least(height, self.min_cell_size.y), self.max_cell_size.y);

        Rect::from_min_size(available.min, Vec2 { x: width, y: height })
    }

    /// The rectangle in which a cell of size `child_size` is placed. Its
    /// top-left corner is that of `cursor`. A cell never gets less than what
    /// the previous frame remembered for its column and row.
    pub fn next_cell(&self, cursor: Rect, child_size: Vec2) -> (r: Rect)
        requires
            self.wf(),
            cursor.min.finite(),
            child_size.finite(),
        ensures
            r == Rect::spec_from_min_size(cursor.min, self@.placed_size(child_size)),
            r.min == cursor.min,
            r.spec_width() == self@.placed_size(child_size).x,
            r.spec_height() == self@.placed_size(child_size).y,
    {
        let width = self.prev_col_width(self.col);
        let height = self.prev_row_height(self.row);
        let size = child_size.max(Vec2 { x: width, y: height });
        Rect::from_min_size(cursor.min, size)
    }

    /// Places a rectangle of size `size` within `frame`: against its left
    /// edge, and half way between its top and its bottom. Where the space
    /// left over is odd, the rectangle sits the half unit higher.
    pub fn align_size_within_rect(&self, size: Vec2, frame: Rect) -> (r: Rect)
        requires
            size.finite(),
            frame.finite(),
        ensures
            r == left_center(size, frame),
            r.min.x == frame.min.x,
            r.spec_width() == size.x,
            r.spec_height() == size.y,
            0 <= (frame.max.y - r.max.y) - (r.min.y - frame.min.y) <= 1,
    {
        let top = half_floor(frame.min.y + frame.max.y - size.y);
        Rect {
            min: Pos2 { x: frame.min.x, y: top },
            max: Pos2 { x: frame.min.x + size.x, y: top + size.y },
        }
    }

    /// Places a cell's content of size `size` within the rectangle `frame`
    /// that the cell was given: against its left edge, and half way between
    /// its top and its bottom.
    pub fn justify_and_align(&self, frame: Rect, size: Vec2) -> (r: Rect)
        requires
            size.finite(),
            frame.finite(),
        ensures
            r == left_center(size, frame),
    {
        self.align_size_within_rect(size, frame)
    }

    /// Reports the rectangle `widget_rect` that the content of the current
    /// cell took. Its size, raised to the least cell size, is merged into
    /// what this frame has measured; the cursor moves right by the width
    /// that the previous frame remembered for the column, and by the
    /// spacing; the next cell is one column on. Returns what to paint over
    /// the cell as a debugging aid.
    pub fn advance(&mut self, cursor: &mut Rect, _frame_rect: Rect, widget_rect: Rect) -> (marks:
        OverflowMarks)
        requires
            old(self).wf(),
            old(self)@.col < usize::MAX,
            old(self)@.row < usize::MAX,
            old(cursor).min.finite(),
            widget_rect.finite(),
        ensures
            final(self)@ == old(self)@.advance(widget_rect.spec_size()),
            final(self).wf(),
            final(cursor).min.x == old(cursor).min.x + old(self)@.col_step(),
            final(cursor).min.y == old(cursor).min.y,
            final(cursor).max == old(cursor).max,
            marks == old(self)@.marks(widget_rect.spec_size()),
    {
        let measured = widget_rect.size();
        let too_wide = measured.x > self.prev_col_width(self.col);
        let too_high = measured.y > self.prev_row_height(self.row);
        let marks = OverflowMarks {
            outline: (self.show_expand_width && too_wide) || (self.show_expand_height && too_high),
            width_lines: self.show_expand_width && too_wide,
        };

        self.curr_state.set_min_col_width(self.col, at_least(measured.x, self.min_cell_size.x));
        self.curr_state.set_min_row_height(self.row, at_least(measured.y, self.min_cell_size.y));

        cursor.min.x = cursor.min.x + (self.prev_col_width(self.col) + self.spacing.x);
        self.col = self.col + 1;
        marks
    }

    /// Ends the current row. The cursor returns to the left edge of the
    /// grid and moves down by the spacing and by the height measured on this
    /// frame for the row that ends; the next cell is the first of the next
    /// row. Returns the stripe to paint behind the row that begins, if it
    /// gets one.
    pub fn end_row(&mut self, cursor: &mut Rect) -> (stripe: Option<Rect>)
        requires
            old(self).wf(),
            old(self)@.row < usize::MAX,
            finite(old(cursor).min.y as int),
        ensures
            final(self)@ == old(self)@.end_row(),
            final(self).wf(),
            final(cursor).min.x == old(self)@.initial_available.min.x,
            final(cursor).min.y == old(cursor).min.y + old(self)@.row_step(),
            final(cursor).max == old(cursor).max,
            stripe is Some <==> final(self)@.stripe_due(),
            stripe matches Some(rect) ==> rect == final(self)@.stripe(final(cursor).min),
    {
        cursor.min.x = self.initial_available.min.x;
        let row_height = match self.curr_state.row_height(self.row) {
            Some(h) => h,
            None => self.min_cell_size.y,
        };
        cursor.min.y = cursor.min.y + (self.spacing.y + row_height);

        self.col = 0;
        self.row = self.row + 1;

        if self.striped && self.row % 2 == 1 {
            match self.prev_state.row_height(self.row) {
                Some(height) => {
                    // The background of the coming row.
                    let size = Vec2 { x: self.prev_state.full_width(self.spacing.x), y: height };
                    let rect = Rect::from_min_size(cursor.min, size);
                    let rect = rect.expand2(Vec2 { x: 0, y: half_floor(self.spacing.y) });
                    let rect = rect.expand2(Vec2 { x: STRIPE_MARGIN, y: 0 });
                    Some(rect)
                },
                None => None,
            }
        } else {
            None
        }
    }

    /// Closes the grid. Where this frame measured other sizes than were
    /// remembered, the store remembers this frame's sizes from now on and a
    /// repaint is owed, since every rectangle handed out on this frame came
    /// from what is now stale. Where it measured the same, the store is left
    /// as it is and no repaint is asked for.
    pub fn save(&self, store: &mut MemoryStore) -> (repaint: bool)
        ensures
            repaint == self@.needs_commit(),
            final(store)@ == self@.commit(old(store)@),
            self@.curr == self@.prev ==> !repaint && final(store)@ == old(store)@,
            self@.curr != self@.prev ==> repaint && final(store)@ == old(store)@.insert(
                self@.id,
                self@.curr,
            ),
            self.wf() && old(store).wf() ==> final(store).wf(),
    {
        if !self.curr_state.same_as(&self.prev_state) {
            self.curr_state.duplicate().store(store, self.id);
            true
        } else {
            false
        }
    }
}

/// A grid: cells laid out left to right, top down, in columns as wide as
/// their widest cell and rows as tall as their tallest.
///
/// The value names the grid and holds its options. What is left unset is
/// taken from the host's [`Style`] when the grid is opened.
#[must_use]
#[derive(Clone, Copy, Debug)]
pub struct Grid {
    /// The identifier under which the grid's sizes are remembered.
    pub id_source: u64,
    /// The number of columns, if given.
    pub num_columns: Option<usize>,
    /// Whether odd rows get a background stripe, if given.
    pub striped: Option<bool>,
    /// The least width of a column, if given.
    pub min_col_width: Option<i64>,
    /// The least height of a row, if given.
    pub min_row_height: Option<i64>,
    /// The greatest size offered to a cell; [`INFINITY`] where unbounded.
    pub max_cell_size: Vec2,
    /// The spacing between neighbouring columns and rows, if given.
    pub spacing: Option<Vec2>,
    /// The index of the first row.
    pub start_row: usize,
}

impl Grid {
    /// A grid with no options set, remembered under `id_source`.
    pub fn new(id_source: u64) -> (r: Grid)
        ensures
            r == (Grid {
                id_source,
                num_columns: None,
                striped: None,
                min_col_width: None,
                min_row_height: None,
                max_cell_size: Vec2 { x: INFINITY, y: INFINITY },
                spacing: None,
                start_row: 0,
            }),
    {
        Grid {
            id_source,
            num_columns: None,
            striped: None,
            min_col_width: None,
            min_row_height: None,
            max_cell_size: Vec2 { x: INFINITY, y: INFINITY },
            spacing: None,
            start_row: 0,
        }
    }

    /// Tells the grid its number of columns. Knowing it, the grid lets the
    /// last column take the space that the others leave.
    pub fn num_columns(self, num_columns: usize) -> (r: Grid)
        ensures
            r == (Grid { num_columns: Some(num_columns), ..self }),
    {
        Grid { num_columns: Some(num_columns), ..self }
    }

    /// Says whether every other row gets a faint background, which can make
    /// a table easier to read. Unset, the host's default holds.
    pub fn striped(self, striped: bool) -> (r: Grid)
        ensures
            r == (Grid { striped: Some(striped), ..self }),
    {
        Grid { striped: Some(striped), ..self }
    }

    /// Sets the least width of each column. Unset, it is the width of the
    /// host's standard interactive size.
    pub fn min_col_width(self, min_col_width: i64) -> (r: Grid)
        ensures
            r == (Grid { min_col_width: Some(min_col_width), ..self }),
    {
        Grid { min_col_width: Some(min_col_width), ..self }
    }

    /// Sets the least height of each row. Unset, it is the height of the
    /// host's standard interactive size.
    pub fn min_row_height(self, min_row_height: i64) -> (r: Grid)
        ensures
            r == (Grid { min_row_height: Some(min_row_height), ..self }),
    {
        Grid { min_row_height: Some(min_row_height), ..self }
    }

    /// Sets the greatest width offered to a cell, at which its content
    /// should wrap.
    pub fn max_col_width(self, max_col_width: i64) -> (r: Grid)
        ensures
            r == (Grid {
                max_cell_size: Vec2 { x: max_col_width, y: self.max_cell_size.y },
                ..self
            }),
    {
        Grid { max_cell_size: Vec2 { x: max_col_width, y: self.max_cell_size.y }, ..self }
    }

    /// Sets the spacing between neighbouring columns and rows. Unset, it is
    /// the host's standard item spacing.
    pub fn spacing(self, spacing: Vec2) -> (r: Grid)
        ensures
            r == (Grid { spacing: Some(spacing), ..self }),
    {
        Grid { spacing: Some(spacing), ..self }
    }

    /// Sets the index of the grid's first row. It shifts which rows are
    /// striped and under which index row heights are remembered, for a grid
    /// that shows a window of a longer one.
    pub fn start_row(self, start_row: usize) -> (r: Grid)
        ensures
            r == (Grid { start_row, ..self }),
    {
        Grid { start_row, ..self }
    }

    /// The engine that this grid starts from when it is opened in `region`
    /// of a host with defaults `style`, `prev` being what is remembered
    /// under its identifier.
    pub open spec fn opened(self, prev: Option<Memory>, style: Style, region: Region) -> GridModel {
        GridModel {
            id: self.id_source,
            is_first_frame: prev is None,
            prev: match prev {
                Some(m) => m,
                None => Memory::empty(),
            },
            curr: Memory::empty(),
            initial_available: region.max_rect.spec_intersect(region.cursor),
            num_columns: self.num_columns,
            spacing: match self.spacing {
                Some(s) => s,
                None => style.item_spacing,
            },
            min_cell_size: Vec2 {
                x: match self.min_col_width {
                    Some(w) => w,
                    None => style.interact_size.x,
                },
                y: match self.min_row_height {
                    Some(h) => h,
                    None => style.interact_size.y,
                },
            },
            max_cell_size: self.max_cell_size,
            striped: match self.striped {
                Some(s) => s,
                None => style.striped,
            },
            show_expand_width: style.show_expand_width,
            show_expand_height: style.show_expand_height,
            col: 0,
            row: self.start_row as nat,
        }
    }

    /// Computes whether the grid can be opened: whether the engine it would
    /// start from is well-formed.
    pub fn can_open(&self, store: &MemoryStore, style: &Style, region: &Region) -> (ok: bool)
        ensures
            ok == self.opened(remembered(store@, self.id_source), *style, *region).wf(),
    {
        let spacing = match self.spacing {
            Some(s) => s,
            None => style.item_spacing,
        };
        let min_x = match self.min_col_width {
            Some(w) => w,
            None => style.interact_size.x,
        };
        let min_y = match self.min_row_height {
            Some(h) => h,
            None => style.interact_size.y,
        };
        let striped = match self.striped {
            Some(s) => s,
            None => style.striped,
        };
        let max = self.max_cell_size;
        if !(region.max_rect.intersect(region.cursor).is_finite() && spacing.is_finite()
            && spacing.x >= 0 && spacing.y >= 0 && is_finite(min_x) && is_finite(min_y) && (
        is_finite(max.x) || max.x == INFINITY) && (is_finite(max.y) || max.y == INFINITY)) {
            return false;
        }
        match State::load(store, self.id_source) {
            Some(prev) => {
                if !prev.is_wf() {
                    false
                } else if striped {
                    prev.checked_full_width(spacing.x).is_some()
                } else {
                    true
                }
            },
            None => {
                assert(remembered(store@, self.id_source) is None);
                assert(Memory::empty().full_width(spacing.x as int) == 0);
                true
            },
        }
    }

    /// Opens the grid for one frame: reads what is remembered under its
    /// identifier, takes what is unset from `style`, and starts at the first
    /// column of row `start_row` with nothing measured.
    pub fn open(self, store: &MemoryStore, style: &Style, region: &Region) -> (r: GridLayout)
        requires
            self.opened(remembered(store@, self.id_source), *style, *region).wf(),
        ensures
            r@ == self.opened(remembered(store@, self.id_source), *style, *region),
            r.wf(),
    {
        let prev = State::load(store, self.id_source);
        let is_first_frame = prev.is_none();
        let prev_state = match prev {
            Some(s) => s,
            None => State::new(),
        };
        GridLayout {
            id: self.id_source,
            is_first_frame,
            prev_state,
            curr_state: State::new(),
            initial_available: region.max_rect.intersect(region.cursor),
            num_columns: self.num_columns,
            spacing: match self.spacing {
                Some(s) => s,
                None => style.item_spacing,
            },
            min_cell_size: Vec2 {
                x: match self.min_col_width {
                    Some(w) => w,
                    None => style.interact_size.x,
                },
                y: match self.min_row_height {
                    Some(h) => h,
                    None => style.interact_size.y,
                },
            },
            max_cell_size: self.max_cell_size,
            striped: match self.striped {
                Some(s) => s,
                None => style.striped,
            },
            show_expand_width: style.show_expand_width,
            show_expand_height: style.show_expand_height,
            col: 0,
            row: self.start_row,
        }
    }
}

} // verus!
