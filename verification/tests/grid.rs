use grus_gui_lib::geometry::{Pos2, Rect, Vec2, COORD_LIMIT, INFINITY};
use grus_gui_lib::grid::{Grid, GridLayout, OverflowMarks};
use grus_gui_lib::layout::{Region, Style};
use grus_gui_lib::memory::{MemoryStore, State};

const G1: u64 = 0x6731;

fn style() -> Style {
    Style {
        item_spacing: Vec2::new(4, 3),
        interact_size: Vec2::new(40, 18),
        button_padding: Vec2::new(4, 1),
        icon_width: 14,
        icon_spacing: 4,
        button_frame: true,
        wrap: None,
        striped: false,
        screen_reader: false,
        show_expand_width: false,
        show_expand_height: false,
    }
}

fn rect(x0: i64, y0: i64, x1: i64, y1: i64) -> Rect {
    Rect::from_min_max(Pos2::new(x0, y0), Pos2::new(x1, y1))
}

fn region(width: i64, height: i64) -> Region {
    let area = rect(0, 0, width, height);
    Region { min_rect: area, max_rect: area, cursor: area }
}

fn open(grid: Grid, store: &MemoryStore, style: &Style, region: &Region) -> GridLayout {
    assert!(grid.can_open(store, style, region));
    grid.open(store, style, region)
}

/// Reports a cell whose content has the size `size`, placed where the grid
/// puts it, and returns the rectangle the cell was given.
fn cell(g: &mut GridLayout, cursor: &mut Rect, size: Vec2) -> Rect {
    let frame = g.next_cell(*cursor, size);
    let widget = g.justify_and_align(frame, size);
    g.advance(cursor, frame, widget);
    frame
}

/// Traverses `rows` and returns the rectangle given to each cell.
fn traverse(g: &mut GridLayout, region: &Region, rows: &[Vec<Vec2>]) -> Vec<Vec<Rect>> {
    let mut cursor = region.cursor;
    let mut frames = Vec::new();
    for row in rows {
        let mut row_frames = Vec::new();
        for size in row {
            row_frames.push(cell(g, &mut cursor, *size));
        }
        g.end_row(&mut cursor);
        frames.push(row_frames);
    }
    frames
}

#[test]
fn first_frame_commits_and_second_frame_is_stable() {
    let mut store = MemoryStore::new();
    let style = style();
    let region = region(300, 200);
    let grid = Grid::new(G1).num_columns(2).striped(false);
    let rows = vec![vec![Vec2::new(40, 20), Vec2::new(60, 20)]];

    let mut g = open(grid, &store, &style, &region);
    assert!(g.is_first_frame());
    traverse(&mut g, &region, &rows);
    assert!(g.save(&mut store));
    assert_eq!(State::load(&store, G1), Some(State::from_sizes(vec![40, 60], vec![20])));

    let mut g = open(grid, &store, &style, &region);
    assert!(!g.is_first_frame());
    let mut cursor = region.cursor;
    let offered = g.available_rect(&Region { cursor, ..region });
    assert!(offered.width() >= 40 && offered.height() >= 20);
    assert_eq!(offered.width(), 40);
    let first = cell(&mut g, &mut cursor, Vec2::new(40, 20));
    assert_eq!(first, rect(0, 0, 40, 20));
    let offered = g.available_rect(&Region { cursor, ..region });
    assert!(offered.width() >= 60 && offered.height() >= 20);
    let second = cell(&mut g, &mut cursor, Vec2::new(60, 20));
    assert_eq!(second, rect(44, 0, 104, 20));
    g.end_row(&mut cursor);
    assert!(!g.save(&mut store));
    assert_eq!(State::load(&store, G1), Some(State::from_sizes(vec![40, 60], vec![20])));
}

#[test]
fn last_column_fills_what_the_others_leave() {
    let mut store = MemoryStore::new();
    let style = style();
    let region = region(300, 200);
    let grid = Grid::new(1).num_columns(3).spacing(Vec2::new(4, 3)).min_col_width(0);
    let rows = vec![vec![Vec2::new(50, 20), Vec2::new(50, 20), Vec2::new(30, 20)]];

    let mut g = open(grid, &store, &style, &region);
    let mut cursor = region.cursor;
    cell(&mut g, &mut cursor, rows[0][0]);
    cell(&mut g, &mut cursor, rows[0][1]);
    // On the first frame the last column is offered no more than the least.
    assert_eq!(g.available_rect(&Region { cursor, ..region }).width(), 0);
    cell(&mut g, &mut cursor, rows[0][2]);
    g.end_row(&mut cursor);
    assert!(g.save(&mut store));

    let mut g = open(grid, &store, &style, &region);
    let mut cursor = region.cursor;
    assert_eq!(g.available_rect(&Region { cursor, ..region }).width(), 50);
    cell(&mut g, &mut cursor, rows[0][0]);
    assert_eq!(g.available_rect(&Region { cursor, ..region }).width(), 50);
    cell(&mut g, &mut cursor, rows[0][1]);
    assert_eq!(cursor.min.x, 108);
    assert_eq!(g.available_rect(&Region { cursor, ..region }).width(), 192);
    assert_eq!(300 - 50 - 50 - 2 * 4, 192);
}

#[test]
fn last_column_is_capped_by_the_greatest_cell_width() {
    let mut store = MemoryStore::new();
    let style = style();
    let region = region(300, 200);
    State::from_sizes(vec![50, 50], vec![20]).store(&mut store, 1);
    let grid = Grid::new(1).num_columns(2).max_col_width(120);
    let mut g = open(grid, &store, &style, &region);
    let mut cursor = region.cursor;
    // Not the last column: the greatest cell width, whatever is remembered.
    assert_eq!(g.available_rect(&Region { cursor, ..region }).width(), 120);
    cell(&mut g, &mut cursor, Vec2::new(50, 20));
    // The last column: what is left is 246, capped at 120.
    assert_eq!(g.available_rect(&Region { cursor, ..region }).width(), 120);
    assert!(g.wrap_text());
}

#[test]
fn width_falls_back_from_memory_to_this_frame_to_the_least() {
    let store = MemoryStore::new();
    let style = style();
    let region = region(300, 200);
    let mut g = open(Grid::new(1), &store, &style, &region);
    assert!(!g.wrap_text());
    let mut cursor = region.cursor;
    // Nothing remembered, nothing measured: the least cell width.
    assert_eq!(g.available_rect(&Region { cursor, ..region }).width(), 40);
    cell(&mut g, &mut cursor, Vec2::new(90, 20));
    g.end_row(&mut cursor);
    // Nothing remembered, but the cell above was 90 wide.
    assert_eq!(g.available_rect(&Region { cursor, ..region }).width(), 90);

    let mut store = MemoryStore::new();
    State::from_sizes(vec![70], vec![20]).store(&mut store, 1);
    let mut g = open(Grid::new(1), &store, &style, &region);
    let mut cursor = region.cursor;
    // Remembered: that width.
    assert_eq!(g.available_rect(&Region { cursor, ..region }).width(), 70);
    cell(&mut g, &mut cursor, Vec2::new(90, 20));
    g.end_row(&mut cursor);
    // Never less than what this frame has measured in the column.
    assert_eq!(g.available_rect(&Region { cursor, ..region }).width(), 90);
}

#[test]
fn offered_height_ignores_memory_and_is_clamped() {
    let mut store = MemoryStore::new();
    State::from_sizes(vec![70], vec![500]).store(&mut store, 1);
    let style = style();
    let region = region(300, 200);
    let g = open(Grid::new(1), &store, &style, &region);
    let offered = g.available_rect(&Region { cursor: rect(10, 150, 300, 200), ..region });
    assert_eq!(offered.min, Pos2::new(10, 150));
    assert_eq!(offered.height(), 50);
    // Less left than the least cell height: the least cell height.
    let offered = g.available_rect(&Region { cursor: rect(10, 195, 300, 200), ..region });
    assert_eq!(offered.height(), 18);
    // A cursor above the region starts at the region's top.
    let offered = g.available_rect(&Region { cursor: rect(-5, -5, 300, 200), ..region });
    assert_eq!(offered.min, Pos2::new(0, 0));
    assert_eq!(offered.height(), 200);
}

#[test]
fn next_cell_never_gives_less_than_was_remembered() {
    let mut store = MemoryStore::new();
    State::from_sizes(vec![70], vec![25]).store(&mut store, 1);
    let style = style();
    let region = region(300, 200);
    let mut g = open(Grid::new(1), &store, &style, &region);
    let mut cursor = rect(10, 20, 300, 200);
    assert_eq!(g.next_cell(cursor, Vec2::new(30, 10)), rect(10, 20, 80, 45));
    assert_eq!(g.next_cell(cursor, Vec2::new(90, 10)), rect(10, 20, 100, 45));
    assert_eq!(g.next_cell(cursor, Vec2::new(30, 40)), rect(10, 20, 80, 60));
    // A column and a row that are not remembered: the least cell size.
    cell(&mut g, &mut cursor, Vec2::new(30, 10));
    g.end_row(&mut cursor);
    cell(&mut g, &mut cursor, Vec2::new(30, 10));
    assert_eq!(g.col(), 1);
    assert_eq!(g.row(), 1);
    assert_eq!(g.next_cell(rect(0, 0, 0, 0), Vec2::new(5, 5)), rect(0, 0, 40, 18));
}

#[test]
fn content_is_placed_left_and_centered() {
    let store = MemoryStore::new();
    let g = open(Grid::new(1), &store, &style(), &region(300, 200));
    let frame = rect(10, 20, 110, 60);
    assert_eq!(g.justify_and_align(frame, Vec2::new(30, 10)), rect(10, 35, 40, 45));
    assert_eq!(g.align_size_within_rect(Vec2::new(30, 11), frame), rect(10, 34, 40, 45));
    assert_eq!(g.align_size_within_rect(Vec2::new(100, 40), frame), frame);
    // Content taller than the frame sticks out above and below.
    assert_eq!(g.align_size_within_rect(Vec2::new(30, 50), frame), rect(10, 15, 40, 65));
}

#[test]
fn advance_merges_the_measurement_and_moves_by_the_remembered_width() {
    let mut store = MemoryStore::new();
    State::from_sizes(vec![70], vec![25]).store(&mut store, 1);
    let style = style();
    let region = region(300, 200);
    let mut g = open(Grid::new(1), &store, &style, &region);
    let mut cursor = rect(10, 20, 300, 200);
    let marks = g.advance(&mut cursor, rect(10, 20, 80, 45), rect(10, 20, 110, 30));
    assert_eq!(marks, OverflowMarks { outline: false, width_lines: false });
    // The cursor moves by the remembered 70 and the spacing, not by the 100 measured.
    assert_eq!(cursor, rect(84, 20, 300, 200));
    assert_eq!(g.col(), 1);
    assert_eq!(g.row(), 0);
    // The height 10 is raised to the least cell height 18.
    assert_eq!(g.curr_state(), &State::from_sizes(vec![100], vec![18]));
    assert_eq!(g.prev_state(), &State::from_sizes(vec![70], vec![25]));
    // The second column is not remembered: the cursor moves by the least cell width.
    g.advance(&mut cursor, rect(84, 20, 124, 45), rect(84, 20, 90, 60));
    assert_eq!(cursor, rect(128, 20, 300, 200));
    assert_eq!(g.curr_state(), &State::from_sizes(vec![100, 40], vec![40]));
}

#[test]
fn overflow_marks_follow_the_debug_switches() {
    let mut store = MemoryStore::new();
    State::from_sizes(vec![70, 70, 70, 70], vec![25]).store(&mut store, 1);
    let region = region(300, 200);
    let wide = rect(0, 0, 71, 25);
    let high = rect(0, 0, 70, 26);
    let both = rect(0, 0, 71, 26);
    let fits = rect(0, 0, 70, 25);

    let show_width = Style { show_expand_width: true, ..style() };
    let mut g = open(Grid::new(1), &store, &show_width, &region);
    let mut cursor = region.cursor;
    let marks = g.advance(&mut cursor, wide, wide);
    assert_eq!(marks, OverflowMarks { outline: true, width_lines: true });
    let mut cursor = region.cursor;
    assert_eq!(
        g.advance(&mut cursor, high, high),
        OverflowMarks { outline: false, width_lines: false }
    );
    let mut cursor = region.cursor;
    assert_eq!(
        g.advance(&mut cursor, fits, fits),
        OverflowMarks { outline: false, width_lines: false }
    );

    let show_height = Style { show_expand_height: true, ..style() };
    let mut g = open(Grid::new(1), &store, &show_height, &region);
    let mut cursor = region.cursor;
    assert_eq!(
        g.advance(&mut cursor, wide, wide),
        OverflowMarks { outline: false, width_lines: false }
    );
    let mut cursor = region.cursor;
    assert_eq!(
        g.advance(&mut cursor, high, high),
        OverflowMarks { outline: true, width_lines: false }
    );

    let show_both = Style { show_expand_width: true, show_expand_height: true, ..style() };
    let mut g = open(Grid::new(1), &store, &show_both, &region);
    let mut cursor = region.cursor;
    assert_eq!(
        g.advance(&mut cursor, both, both),
        OverflowMarks { outline: true, width_lines: true }
    );
}

#[test]
fn end_row_moves_down_by_this_frames_row_height() {
    let mut store = MemoryStore::new();
    // The previous frame's row was 100 high; this frame's is 30.
    State::from_sizes(vec![70], vec![100]).store(&mut store, 1);
    let style = style();
    let region = Region { cursor: rect(10, 20, 300, 200), ..region(300, 200) };
    let mut g = open(Grid::new(1), &store, &style, &region);
    let mut cursor = region.cursor;
    g.advance(&mut cursor, rect(10, 20, 80, 120), rect(10, 20, 80, 50));
    assert_eq!(g.end_row(&mut cursor), None);
    // Back to the left edge of the space the grid had; down by 3 + 30.
    assert_eq!(cursor, rect(10, 53, 300, 200));
    assert_eq!(g.col(), 0);
    assert_eq!(g.row(), 1);
    // A row without cells is as high as the least cell height.
    assert_eq!(g.end_row(&mut cursor), None);
    assert_eq!(cursor, rect(10, 74, 300, 200));
    assert_eq!(g.row(), 2);
}

#[test]
fn stripes_go_behind_odd_rows() {
    let mut store = MemoryStore::new();
    State::from_sizes(vec![50, 60], vec![20, 21, 22, 23]).store(&mut store, 1);
    let style = style();
    let region = region(300, 200);
    let mut g = open(Grid::new(1).striped(true), &store, &style, &region);
    let mut cursor = region.cursor;
    // Row 1 begins: striped. Width 50 + 4 + 60, height 21, grown by 1 above
    // and below (half the spacing, rounded down) and by 2 on either side.
    let stripe = g.end_row(&mut cursor);
    assert_eq!(cursor.min, Pos2::new(0, 21));
    assert_eq!(stripe, Some(rect(-2, 20, 116, 43)));
    // Row 2 begins: not striped.
    assert_eq!(g.end_row(&mut cursor), None);
    // Row 3 begins: striped.
    let stripe = g.end_row(&mut cursor);
    assert_eq!(cursor.min, Pos2::new(0, 63));
    assert_eq!(stripe, Some(rect(-2, 62, 116, 87)));
    // Row 4 begins: not striped; row 5: odd, but no height is remembered.
    assert_eq!(g.end_row(&mut cursor), None);
    assert_eq!(g.end_row(&mut cursor), None);
    assert_eq!(g.row(), 5);
}

#[test]
fn start_row_shifts_the_stripes() {
    let mut store = MemoryStore::new();
    State::from_sizes(vec![50], vec![0, 0, 0, 0, 0, 20, 20, 20, 20]).store(&mut store, 1);
    let style = Style { striped: true, ..style() };
    let region = region(300, 200);
    let mut g = open(Grid::new(1).start_row(5), &store, &style, &region);
    assert_eq!(g.row(), 5);
    let mut cursor = region.cursor;
    // Row 6 begins: even, no stripe. Row 7 begins: odd, striped.
    assert_eq!(g.end_row(&mut cursor), None);
    assert!(g.end_row(&mut cursor).is_some());
    assert_eq!(g.end_row(&mut cursor), None);
    assert_eq!(g.row(), 8);

    // The same rows from row 0: the stripes fall on the other rows.
    let mut g = open(Grid::new(1), &store, &style, &region);
    let mut cursor = region.cursor;
    assert!(g.end_row(&mut cursor).is_some());
    assert_eq!(g.end_row(&mut cursor), None);
    assert!(g.end_row(&mut cursor).is_some());
}

#[test]
fn unstriped_grid_paints_no_stripe() {
    let mut store = MemoryStore::new();
    State::from_sizes(vec![50], vec![20, 20]).store(&mut store, 1);
    let style = Style { striped: true, ..style() };
    let region = region(300, 200);
    let mut g = open(Grid::new(1).striped(false), &store, &style, &region);
    let mut cursor = region.cursor;
    assert_eq!(g.end_row(&mut cursor), None);
}

#[test]
fn start_row_offsets_the_remembered_heights() {
    let mut store = MemoryStore::new();
    let style = style();
    let region = region(300, 200);
    let grid = Grid::new(1).start_row(2);
    let mut g = open(grid, &store, &style, &region);
    traverse(&mut g, &region, &[vec![Vec2::new(40, 30)]]);
    assert!(g.save(&mut store));
    assert_eq!(State::load(&store, 1), Some(State::from_sizes(vec![40], vec![0, 0, 30])));
}

#[test]
fn save_writes_only_what_differs() {
    let mut store = MemoryStore::new();
    let style = style();
    let region = region(300, 200);
    // An empty grid with nothing remembered: nothing to write, no repaint.
    let g = open(Grid::new(1), &store, &style, &region);
    assert!(!g.save(&mut store));
    assert!(!store.contains(1));

    // Other grids are left alone.
    State::from_sizes(vec![9], vec![9]).store(&mut store, 2);
    let mut g = open(Grid::new(1), &store, &style, &region);
    traverse(&mut g, &region, &[vec![Vec2::new(50, 20)]]);
    assert!(g.save(&mut store));
    assert_eq!(State::load(&store, 1), Some(State::from_sizes(vec![50], vec![20])));
    assert_eq!(State::load(&store, 2), Some(State::from_sizes(vec![9], vec![9])));

    // An empty frame after a full one differs from what is remembered.
    let g = open(Grid::new(1), &store, &style, &region);
    assert!(g.save(&mut store));
    assert_eq!(State::load(&store, 1), Some(State::new()));
}

#[test]
fn narrower_content_replaces_what_is_remembered() {
    let mut store = MemoryStore::new();
    let style = style();
    let region = region(300, 200);
    let grid = Grid::new(1).min_col_width(0).min_row_height(0);
    let mut g = open(grid, &store, &style, &region);
    traverse(&mut g, &region, &[vec![Vec2::new(100, 20)]]);
    assert!(g.save(&mut store));
    let mut g = open(grid, &store, &style, &region);
    let frames = traverse(&mut g, &region, &[vec![Vec2::new(40, 20)]]);
    // The cell still gets the remembered width on this frame ...
    assert_eq!(frames[0][0], rect(0, 0, 100, 20));
    // ... but what is remembered afterwards is what this frame measured.
    assert!(g.save(&mut store));
    assert_eq!(State::load(&store, 1), Some(State::from_sizes(vec![40], vec![20])));
}

#[test]
fn remembered_width_stays_while_a_cell_reaches_it() {
    let mut store = MemoryStore::new();
    let style = style();
    let region = region(300, 200);
    let grid = Grid::new(1).min_col_width(0);
    let frames = [
        vec![vec![Vec2::new(100, 20)], vec![Vec2::new(10, 20)]],
        vec![vec![Vec2::new(20, 20)], vec![Vec2::new(100, 20)]],
        vec![vec![Vec2::new(130, 20)]],
        vec![vec![Vec2::new(100, 20)]],
    ];
    for rows in frames.iter() {
        let mut g = open(grid, &store, &style, &region);
        traverse(&mut g, &region, rows);
        g.save(&mut store);
        let remembered = State::load(&store, 1).expect("committed");
        assert!(remembered.col_width(0).expect("measured") >= 100);
    }
}

#[test]
fn unchanging_content_converges_on_the_second_frame() {
    let mut store = MemoryStore::new();
    let style = style();
    let region = region(400, 300);
    let grid = Grid::new(1).start_row(1);
    let rows = vec![
        vec![Vec2::new(30, 10), Vec2::new(80, 25), Vec2::new(10, 10)],
        vec![Vec2::new(55, 40)],
        vec![],
        vec![Vec2::new(20, 19), Vec2::new(90, 5)],
    ];
    let mut g = open(grid, &store, &style, &region);
    traverse(&mut g, &region, &rows);
    assert!(g.save(&mut store));
    let stable = State::from_sizes(vec![55, 90, 40], vec![0, 25, 40, 0, 19]);
    assert_eq!(State::load(&store, 1), Some(stable.clone()));

    for _ in 0..3 {
        let mut g = open(grid, &store, &style, &region);
        let mut cursor = region.cursor;
        for (r, row) in rows.iter().enumerate() {
            for (c, size) in row.iter().enumerate() {
                let offered = g.available_rect(&Region { cursor, ..region });
                assert_eq!(Some(offered.width()), stable.col_width(c));
                let frame = cell(&mut g, &mut cursor, *size);
                assert_eq!(Some(frame.width()), stable.col_width(c));
                assert_eq!(Some(frame.height()), stable.row_height(r + 1));
            }
            g.end_row(&mut cursor);
        }
        assert!(!g.save(&mut store));
        assert_eq!(State::load(&store, 1), Some(stable.clone()));
    }
}

#[test]
fn builder_sets_one_option_at_a_time() {
    let g = Grid::new(9);
    assert_eq!(g.id_source, 9);
    assert_eq!(g.num_columns, None);
    assert_eq!(g.striped, None);
    assert_eq!(g.min_col_width, None);
    assert_eq!(g.min_row_height, None);
    assert_eq!(g.max_cell_size, Vec2::new(INFINITY, INFINITY));
    assert_eq!(g.spacing, None);
    assert_eq!(g.start_row, 0);
    let g = g
        .num_columns(3)
        .striped(true)
        .min_col_width(10)
        .min_row_height(11)
        .max_col_width(200)
        .spacing(Vec2::new(1, 2))
        .start_row(7);
    assert_eq!(g.id_source, 9);
    assert_eq!(g.num_columns, Some(3));
    assert_eq!(g.striped, Some(true));
    assert_eq!(g.min_col_width, Some(10));
    assert_eq!(g.min_row_height, Some(11));
    assert_eq!(g.max_cell_size, Vec2::new(200, INFINITY));
    assert_eq!(g.spacing, Some(Vec2::new(1, 2)));
    assert_eq!(g.start_row, 7);
}

#[test]
fn open_takes_what_is_unset_from_the_style() {
    let store = MemoryStore::new();
    let region = region(300, 200);
    let g = open(Grid::new(1), &store, &style(), &region);
    // The least cell size is the standard interactive size.
    assert_eq!(g.prev_col_width(0), 40);
    assert_eq!(g.prev_row_height(0), 18);
    let mut g = open(
        Grid::new(1).min_col_width(12).min_row_height(13).spacing(Vec2::new(7, 9)),
        &store,
        &style(),
        &region,
    );
    assert_eq!(g.prev_col_width(0), 12);
    assert_eq!(g.prev_row_height(5), 13);
    let mut cursor = region.cursor;
    g.advance(&mut cursor, rect(0, 0, 1, 1), rect(0, 0, 1, 1));
    assert_eq!(cursor.min.x, 12 + 7);
    g.end_row(&mut cursor);
    assert_eq!(cursor.min.y, 13 + 9);
}

#[test]
fn in_row_counts_against_the_number_of_columns() {
    let store = MemoryStore::new();
    let region = region(300, 200);
    let mut g = open(Grid::new(1).num_columns(1), &store, &style(), &region);
    assert!(g.in_row());
    let mut cursor = region.cursor;
    cell(&mut g, &mut cursor, Vec2::new(10, 10));
    assert!(!g.in_row());
    g.end_row(&mut cursor);
    assert!(g.in_row());
    let g = open(Grid::new(1).num_columns(0), &store, &style(), &region);
    assert!(!g.in_row());
}

#[test]
fn can_open_refuses_bad_geometry() {
    let mut store = MemoryStore::new();
    let style = style();
    let good = region(300, 200);
    assert!(Grid::new(1).can_open(&store, &style, &good));
    assert!(!Grid::new(1).spacing(Vec2::new(-1, 0)).can_open(&store, &style, &good));
    assert!(!Grid::new(1).spacing(Vec2::new(0, -1)).can_open(&store, &style, &good));
    assert!(!Grid::new(1).spacing(Vec2::new(INFINITY, 0)).can_open(&store, &style, &good));
    assert!(!Grid::new(1).min_col_width(INFINITY).can_open(&store, &style, &good));
    assert!(!Grid::new(1).min_row_height(COORD_LIMIT + 1).can_open(&store, &style, &good));
    assert!(Grid::new(1).max_col_width(COORD_LIMIT).can_open(&store, &style, &good));
    assert!(!Grid::new(1).max_col_width(COORD_LIMIT + 1).can_open(&store, &style, &good));
    assert!(Grid::new(1).max_col_width(INFINITY).can_open(&store, &style, &good));
    let unbounded = Region { max_rect: rect(0, 0, INFINITY, 200), cursor: rect(0, 0, INFINITY, 200), ..good };
    assert!(!Grid::new(1).can_open(&store, &style, &unbounded));
    // A cursor that reaches further than the region is cut to the region.
    let cut = Region { cursor: rect(0, 0, INFINITY, INFINITY), ..good };
    assert!(Grid::new(1).can_open(&store, &style, &cut));
    let negative = Style { item_spacing: Vec2::new(-4, 3), ..style };
    assert!(!Grid::new(1).can_open(&store, &negative, &good));
    assert!(Grid::new(1).spacing(Vec2::new(4, 3)).can_open(&store, &negative, &good));

    // What is remembered must be within bounds, and a stripe must fit.
    State::from_sizes(vec![-1], vec![]).store(&mut store, 1);
    assert!(!Grid::new(1).can_open(&store, &style, &good));
    State::from_sizes(vec![COORD_LIMIT, COORD_LIMIT, 1], vec![]).store(&mut store, 2);
    assert!(Grid::new(2).striped(false).can_open(&store, &style, &good));
    assert!(!Grid::new(2).striped(true).can_open(&store, &style, &good));
}
