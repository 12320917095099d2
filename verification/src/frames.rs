//! Whole frames: what holds of a grid over a traversal of all its cells, and
//! from one frame to the next.
//!
//! The content of a grid on one frame is given as its rows, each row as the
//! measured sizes of its cells from left to right.

use crate::geometry::{finite, Vec2};
use crate::grid::{remembered, Grid, GridModel};
use crate::layout::{Region, Style};
use crate::memory::Memory;
use vstd::prelude::*;

verus! {

/// Every slot of `a` is also a slot of `b`, and is at least as large there.
pub open spec fn sizes_covered(a: Seq<i64>, b: Seq<i64>) -> bool {
    &&& a.len() <= b.len()
    &&& forall|i: int| 0 <= i < a.len() ==> a[i] <= #[trigger] b[i]
}

impl Memory {
    /// Every size in `self` is also in `later`, and is at least as large
    /// there.
    pub open spec fn covered_by(self, later: Memory) -> bool {
        sizes_covered(self.col_widths, later.col_widths) && sizes_covered(
            self.row_heights,
            later.row_heights,
        )
    }
}

impl GridModel {
    /// The engine after the cells of `cells` were reported one after the
    /// other, from left to right.
    pub open spec fn report_cells(self, cells: Seq<Vec2>) -> GridModel
        decreases cells.len(),
    {
        if cells.len() == 0 {
            self
        } else {
            self.report_cells(cells.drop_last()).advance(cells.last())
        }
    }

    /// The engine after the rows of `rows` were traversed one after the
    /// other: the cells of each row reported, and the row ended.
    pub open spec fn run_rows(self, rows: Seq<Seq<Vec2>>) -> GridModel
        decreases rows.len(),
    {
        if rows.len() == 0 {
            self
        } else {
            self.run_rows(rows.drop_last()).report_cells(rows.last()).end_row()
        }
    }

    /// The engine as it stands before cell `col` of row `row` of `rows` is
    /// reported.
    pub open spec fn before_cell(self, rows: Seq<Seq<Vec2>>, row: int, col: int) -> GridModel {
        self.run_rows(rows.take(row)).report_cells(rows[row].take(col))
    }

    /// Two engines agree on what a traversal's measurements depend on: what
    /// was measured so far, the next cell's column and row, and the least
    /// cell size.
    pub open spec fn measures_like(self, other: GridModel) -> bool {
        &&& self.curr == other.curr
        &&& self.col == other.col
        &&& self.row == other.row
        &&& self.min_cell_size == other.min_cell_size
    }
}

/// Reporting a cell never shrinks what the frame has measured: every column
/// width and row height stays or grows, and the reported cell's column and
/// row hold at least its size and at least the least cell size.
pub proof fn lemma_advance_never_shrinks(g: GridModel, measured: Vec2)
    ensures
        g.curr.covered_by(g.advance(measured).curr),
        g.advance(measured).curr.col_width(g.col) matches Some(w) && w >= measured.x && w
            >= g.min_cell_size.x,
        g.advance(measured).curr.row_height(g.row) matches Some(h) && h >= measured.y && h
            >= g.min_cell_size.y,
{
}

proof fn lemma_covered_trans(a: Memory, b: Memory, c: Memory)
    requires
        a.covered_by(b),
        b.covered_by(c),
    ensures
        a.covered_by(c),
{
    assert forall|i: int| 0 <= i < a.col_widths.len() implies a.col_widths[i]
        <= #[trigger] c.col_widths[i] by {
        assert(a.col_widths[i] <= b.col_widths[i]);
    }
    assert forall|i: int| 0 <= i < a.row_heights.len() implies a.row_heights[i]
        <= #[trigger] c.row_heights[i] by {
        assert(a.row_heights[i] <= b.row_heights[i]);
    }
}

/// Reporting cells changes nothing but what was measured and the column of
/// the next cell, which moves on by the number of cells.
pub proof fn lemma_report_cells_keeps(g: GridModel, cells: Seq<Vec2>)
    ensures
        g.report_cells(cells) == (GridModel {
            curr: g.report_cells(cells).curr,
            col: g.col + cells.len(),
            ..g
        }),
    decreases cells.len(),
{
    if cells.len() > 0 {
        lemma_report_cells_keeps(g, cells.drop_last());
    }
}

/// Traversing rows changes nothing but what was measured and the position
/// of the next cell: it is in the row further down by the number of rows,
/// and in the first column if any row was traversed.
pub proof fn lemma_run_rows_keeps(g: GridModel, rows: Seq<Seq<Vec2>>)
    ensures
        g.run_rows(rows) == (GridModel {
            curr: g.run_rows(rows).curr,
            col: if rows.len() == 0 {
                g.col
            } else {
                0
            },
            row: g.row + rows.len(),
            ..g
        }),
    decreases rows.len(),
{
    if rows.len() > 0 {
        lemma_run_rows_keeps(g, rows.drop_last());
        lemma_report_cells_keeps(g.run_rows(rows.drop_last()), rows.last());
    }
}

proof fn lemma_cells_prefix_covered(g: GridModel, cells: Seq<Vec2>, k: int)
    requires
        0 <= k <= cells.len(),
    ensures
        g.report_cells(cells.take(k)).curr.covered_by(g.report_cells(cells).curr),
    decreases cells.len(),
{
    if k == cells.len() {
        assert(cells.take(k) =~= cells);
    } else {
        let front = cells.drop_last();
        lemma_cells_prefix_covered(g, front, k);
        assert(front.take(k) =~= cells.take(k));
        lemma_advance_never_shrinks(g.report_cells(front), cells.last());
        lemma_covered_trans(
            g.report_cells(cells.take(k)).curr,
            g.report_cells(front).curr,
            g.report_cells(cells).curr,
        );
    }
}

proof fn lemma_rows_prefix_covered(g: GridModel, rows: Seq<Seq<Vec2>>, k: int)
    requires
        0 <= k <= rows.len(),
    ensures
        g.run_rows(rows.take(k)).curr.covered_by(g.run_rows(rows).curr),
    decreases rows.len(),
{
    if k == rows.len() {
        assert(rows.take(k) =~= rows);
    } else {
        let front = rows.drop_last();
        lemma_rows_prefix_covered(g, front, k);
        assert(front.take(k) =~= rows.take(k));
        let before = g.run_rows(front);
        lemma_cells_prefix_covered(before, rows.last(), 0);
        assert(rows.last().take(0) =~= Seq::<Vec2>::empty());
        lemma_covered_trans(
            g.run_rows(rows.take(k)).curr,
            before.curr,
            g.run_rows(rows).curr,
        );
    }
}

/// Within one frame what is measured only grows: after any number of rows
/// and cells, every column width and row height that the frame had measured
/// before is still there and is at least as large.
pub proof fn lemma_frame_never_shrinks(g: GridModel, rows: Seq<Seq<Vec2>>, cells: Seq<Vec2>)
    ensures
        g.curr.covered_by(g.run_rows(rows).curr),
        g.curr.covered_by(g.report_cells(cells).curr),
{
    lemma_rows_prefix_covered(g, rows, 0);
    assert(rows.take(0) =~= Seq::<Seq<Vec2>>::empty());
    lemma_cells_prefix_covered(g, cells, 0);
    assert(cells.take(0) =~= Seq::<Vec2>::empty());
}

/// What the frame has measured once all of `rows` is traversed holds, for
/// each cell of `rows`, a width for its column and a height for its row
/// that are at least the cell's size; and before the cell is reported, what
/// was measured so far is within what is measured at the end.
pub proof fn lemma_frame_covers_each_cell(g: GridModel, rows: Seq<Seq<Vec2>>, row: int, col: int)
    requires
        g.col == 0,
        0 <= row < rows.len(),
        0 <= col < rows[row].len(),
    ensures
        g.before_cell(rows, row, col).col == col,
        g.before_cell(rows, row, col).row == g.row + row,
        g.before_cell(rows, row, col).curr.covered_by(g.run_rows(rows).curr),
        g.run_rows(rows).curr.col_width(col as nat) matches Some(w) && w >= rows[row][col].x && w
            >= g.min_cell_size.x,
        g.run_rows(rows).curr.row_height((g.row + row) as nat) matches Some(h) && h
            >= rows[row][col].y && h >= g.min_cell_size.y,
{
    let cells = rows[row];
    let start = g.run_rows(rows.take(row));
    let before = g.before_cell(rows, row, col);
    let after = before.advance(cells[col]);
    let row_done = start.report_cells(cells);
    let done = g.run_rows(rows);
    lemma_run_rows_keeps(g, rows.take(row));
    lemma_report_cells_keeps(start, cells.take(col));
    lemma_advance_never_shrinks(before, cells[col]);
    // The cell's report is the last step of reporting the first `col + 1` cells.
    assert(cells.take(col + 1).drop_last() =~= cells.take(col));
    assert(start.report_cells(cells.take(col + 1)) == after);
    lemma_cells_prefix_covered(start, cells, col + 1);
    // The row's end is the last step of traversing the first `row + 1` rows.
    assert(rows.take(row + 1).drop_last() =~= rows.take(row));
    assert(g.run_rows(rows.take(row + 1)) == row_done.end_row());
    lemma_rows_prefix_covered(g, rows, row + 1);
    lemma_covered_trans(after.curr, row_done.curr, done.curr);
    lemma_covered_trans(before.curr, after.curr, done.curr);
}

proof fn lemma_cells_measure_alike(a: GridModel, b: GridModel, cells: Seq<Vec2>)
    requires
        a.measures_like(b),
    ensures
        a.report_cells(cells).measures_like(b.report_cells(cells)),
    decreases cells.len(),
{
    if cells.len() > 0 {
        lemma_cells_measure_alike(a, b, cells.drop_last());
    }
}

/// What a frame measures does not depend on what was remembered: two
/// engines that agree on what was measured so far, on the position of the
/// next cell and on the least cell size agree on all of these after the
/// same rows.
pub proof fn lemma_rows_measure_alike(a: GridModel, b: GridModel, rows: Seq<Seq<Vec2>>)
    requires
        a.measures_like(b),
    ensures
        a.run_rows(rows).measures_like(b.run_rows(rows)),
    decreases rows.len(),
{
    if rows.len() > 0 {
        lemma_rows_measure_alike(a, b, rows.drop_last());
        lemma_cells_measure_alike(
            a.run_rows(rows.drop_last()),
            b.run_rows(rows.drop_last()),
            rows.last(),
        );
    }
}

/// A grid whose content is the same on every frame has converged after one
/// frame. Let one frame start from whatever was remembered, `prev`, or from
/// nothing, and traverse `rows`, and let any later frame start from what
/// that frame measured and traverse `rows` again. Then:
///
/// - the later frame measures exactly what was remembered, so closing it
///   writes nothing and asks for no repaint;
/// - on the later frame every cell is placed in a rectangle that is exactly
///   as wide as its column and as tall as its row were measured;
/// - on the later frame, in a column that is not the last and where the
///   greatest cell width is unbounded, the width offered to a cell before it
///   is measured is exactly the width measured for its column.
pub proof fn lemma_second_frame_converges(
    grid: Grid,
    prev: Option<Memory>,
    style: Style,
    region: Region,
    rows: Seq<Seq<Vec2>>,
)
    ensures
        ({
            let first = grid.opened(prev, style, region).run_rows(rows);
            let start = grid.opened(Some(first.curr), style, region);
            let second = start.run_rows(rows);
            &&& second.curr == first.curr
            &&& !second.needs_commit()
            &&& forall|row: int, col: int|
                0 <= row < rows.len() && 0 <= col < rows[row].len() ==> {
                    let g = #[trigger] start.before_cell(rows, row, col);
                    &&& g.col == col
                    &&& g.row == grid.start_row + row
                    &&& first.curr.col_width(g.col) is Some
                    &&& first.curr.row_height(g.row) is Some
                    &&& g.placed_size(rows[row][col]) == (Vec2 {
                        x: first.curr.col_widths[col],
                        y: first.curr.row_heights[grid.start_row + row],
                    })
                    &&& !g.is_last_column() && !finite(g.max_cell_size.x as int) ==> forall|
                        cursor_left: i64,
                    | #[trigger]
                        g.offered_width(cursor_left) == first.curr.col_widths[col]
                }
        }),
{
    let first_start = grid.opened(prev, style, region);
    let first = first_start.run_rows(rows);
    let start = grid.opened(Some(first.curr), style, region);
    let second = start.run_rows(rows);
    lemma_rows_measure_alike(first_start, start, rows);
    lemma_run_rows_keeps(start, rows);
    lemma_rows_not_negative(first_start, rows);
    assert forall|row: int, col: int| 0 <= row < rows.len() && 0 <= col < rows[row].len() implies {
        let g = #[trigger] start.before_cell(rows, row, col);
        &&& g.col == col
        &&& g.row == grid.start_row + row
        &&& first.curr.col_width(g.col) is Some
        &&& first.curr.row_height(g.row) is Some
        &&& g.placed_size(rows[row][col]) == (Vec2 {
            x: first.curr.col_widths[col],
            y: first.curr.row_heights[grid.start_row + row],
        })
        &&& !g.is_last_column() && !finite(g.max_cell_size.x as int) ==> forall|cursor_left: i64| #[trigger]
            g.offered_width(cursor_left) == first.curr.col_widths[col]
    } by {
        let g = start.before_cell(rows, row, col);
        lemma_frame_covers_each_cell(start, rows, row, col);
        lemma_run_rows_keeps(start, rows.take(row));
        lemma_report_cells_keeps(start.run_rows(rows.take(row)), rows[row].take(col));
        assert(g.prev == first.curr);
        if !g.is_last_column() && !finite(g.max_cell_size.x as int) {
            assert forall|cursor_left: i64| #[trigger]
                g.offered_width(cursor_left) == first.curr.col_widths[col] by {
                assert(g.curr.covered_by(first.curr));
                assert(first.curr.col_widths[col] >= 0);
            }
        }
    }
}

/// Every size is at least 0.
pub open spec fn sizes_not_negative(s: Seq<i64>) -> bool {
    forall|i: int| 0 <= i < s.len() ==> 0 <= #[trigger] s[i]
}

proof fn lemma_cells_not_negative(g: GridModel, cells: Seq<Vec2>)
    requires
        sizes_not_negative(g.curr.col_widths),
        sizes_not_negative(g.curr.row_heights),
    ensures
        sizes_not_negative(g.report_cells(cells).curr.col_widths),
        sizes_not_negative(g.report_cells(cells).curr.row_heights),
    decreases cells.len(),
{
    if cells.len() > 0 {
        lemma_cells_not_negative(g, cells.drop_last());
    }
}

proof fn lemma_rows_not_negative(g: GridModel, rows: Seq<Seq<Vec2>>)
    requires
        sizes_not_negative(g.curr.col_widths),
        sizes_not_negative(g.curr.row_heights),
    ensures
        sizes_not_negative(g.run_rows(rows).curr.col_widths),
        sizes_not_negative(g.run_rows(rows).curr.row_heights),
    decreases rows.len(),
{
    if rows.len() > 0 {
        lemma_rows_not_negative(g, rows.drop_last());
        lemma_cells_not_negative(g.run_rows(rows.drop_last()), rows.last());
    }
}

/// After any number of rows from a row index `r`, the next row has index
/// `r` and the number of rows ended; and the stripe that the last of these
/// row ends returns is there exactly if the grid is striped, the index of
/// the row that begins is odd, and a height is remembered for that row. So
/// of the rows after a grid's first, those with an odd index are striped and
/// those with an even index are not, counted from the grid's first row
/// index.
pub proof fn lemma_stripe_parity(g: GridModel, rows: Seq<Seq<Vec2>>)
    requires
        rows.len() > 0,
    ensures
        g.run_rows(rows).row == g.row + rows.len(),
        g.run_rows(rows).stripe_due() <==> g.striped && (g.row + rows.len()) % 2 == 1
            && g.prev.row_height(g.row + rows.len()) is Some,
        (g.row + rows.len()) % 2 == 0 ==> !g.run_rows(rows).stripe_due(),
{
    lemma_run_rows_keeps(g, rows);
}

/// A row of `rows` has a cell in column `col` whose width, raised to
/// `min_width`, is at least `width`.
pub open spec fn reaches_width(rows: Seq<Seq<Vec2>>, col: nat, width: i64, min_width: i64) -> bool {
    exists|row: int|
        0 <= row < rows.len() && col < (#[trigger] rows[row]).len() && (rows[row][col as int].x
            >= width || min_width >= width)
}

/// The store after a grid was shown on one frame after the other: on each
/// frame it was opened on what the store remembered, the frame's rows were
/// traversed, and it was closed. `frames` holds the rows of each frame.
pub open spec fn after_frames(
    store: Map<u64, Memory>,
    grid: Grid,
    style: Style,
    region: Region,
    frames: Seq<Seq<Seq<Vec2>>>,
) -> Map<u64, Memory>
    decreases frames.len(),
{
    if frames.len() == 0 {
        store
    } else {
        let before = after_frames(store, grid, style, region, frames.drop_last());
        grid.opened(remembered(before, grid.id_source), style, region).run_rows(
            frames.last(),
        ).commit(before)
    }
}

/// Once the remembered width of a column has reached `width`, it stays at
/// least `width` over every sequence of frames on each of which the column
/// holds a cell that is, raised to the least cell width, at least `width`
/// wide. (A frame on which every cell of the column is narrower replaces
/// what is remembered by the narrower width.)
pub proof fn lemma_memory_width_kept(
    store: Map<u64, Memory>,
    grid: Grid,
    style: Style,
    region: Region,
    frames: Seq<Seq<Seq<Vec2>>>,
    col: nat,
    width: i64,
)
    requires
        remembered(store, grid.id_source) matches Some(m) && m.col_width(col) matches Some(w) && w
            >= width,
        forall|k: int|
            0 <= k < frames.len() ==> reaches_width(
                #[trigger] frames[k],
                col,
                width,
                grid.opened(None, style, region).min_cell_size.x,
            ),
    ensures
        remembered(after_frames(store, grid, style, region, frames), grid.id_source) matches Some(m)
            && m.col_width(col) matches Some(w) && w >= width,
    decreases frames.len(),
{
    if frames.len() > 0 {
        let earlier = frames.drop_last();
        assert forall|k: int| 0 <= k < earlier.len() implies reaches_width(
            #[trigger] earlier[k],
            col,
            width,
            grid.opened(None, style, region).min_cell_size.x,
        ) by {
            assert(earlier[k] == frames[k]);
        }
        lemma_memory_width_kept(store, grid, style, region, earlier, col, width);
        let before = after_frames(store, grid, style, region, earlier);
        let rows = frames.last();
        let start = grid.opened(remembered(before, grid.id_source), style, region);
        assert(reaches_width(rows, col, width, start.min_cell_size.x));
        let row = choose|row: int|
            0 <= row < rows.len() && col < (#[trigger] rows[row]).len() && (rows[row][col as int].x
                >= width || start.min_cell_size.x >= width);
        lemma_frame_covers_each_cell(start, rows, row, col as int);
        lemma_run_rows_keeps(start, rows);
    }
}

/// Closing a frame that measured exactly what was remembered leaves the
/// store as it was, whatever it holds.
pub proof fn lemma_commit_idempotent(g: GridModel, store: Map<u64, Memory>)
    requires
        g.curr == g.prev,
    ensures
        !g.needs_commit(),
        g.commit(store) == store,
{
}

} // verus!
