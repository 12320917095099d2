use grus_gui_lib::geometry::{Pos2, Rect, Vec2, INFINITY};
use grus_gui_lib::grid::Grid;
use grus_gui_lib::layout::{Region, Style};
use grus_gui_lib::memory::{MemoryStore, State};
use grus_gui_lib::placer::WidgetPlacer;
use grus_gui_lib::widgets::{
    is_style_finite, Align, Button, Checkbox, Color32, Create, Galley, Image, Label, LaidOutButton,
    LaidOutCheckbox, LaidOutLabel, LaidOutRadioButton, RadioButton, Rounding, Sense, Stroke,
};

fn widget_style() -> Style {
    Style {
        item_spacing: Vec2::new(8, 3),
        interact_size: Vec2::new(40, 18),
        button_padding: Vec2::new(4, 1),
        icon_width: 14,
        icon_spacing: 4,
        button_frame: true,
        wrap: None,
        striped: false,
        screen_reader: false,
        show_expand_width: false,
        show_expand_height: false,
    }
}

fn bounds(x0: i64, y0: i64, x1: i64, y1: i64) -> Rect {
    Rect::from_min_max(Pos2::new(x0, y0), Pos2::new(x1, y1))
}

fn fresh_placer(grid: Grid, style: Style) -> WidgetPlacer {
    let store = MemoryStore::new();
    let space = bounds(0, 0, 300, 200);
    let region = Region { min_rect: space, max_rect: space, cursor: space };
    assert!(grid.can_open(&store, &style, &region));
    WidgetPlacer::new(grid.open(&store, &style, &region), region, style)
}

fn plain_grid() -> Grid {
    Grid::new(1).min_col_width(0).min_row_height(0)
}

#[test]
fn senses() {
    assert_eq!(Sense::hover(), Sense { click: false, drag: false, focusable: false });
    assert_eq!(
        Sense::focusable_noninteractive(),
        Sense { click: false, drag: false, focusable: true }
    );
    assert_eq!(Sense::click(), Sense { click: true, drag: false, focusable: true });
    assert_eq!(Sense::drag(), Sense { click: false, drag: true, focusable: true });
}

#[test]
fn label_is_built_step_by_step() {
    let text = Galley { size: Vec2::new(50, 12), halign: Align::Min };
    let label = Label::new(text);
    assert_eq!(label.text(), text);
    assert_eq!(label.wrap, None);
    assert_eq!(label.sense, None);
    let label = label.wrap(false).sense(Sense::click());
    assert_eq!(label.wrap, Some(false));
    assert_eq!(label.sense, Some(Sense::click()));
    assert_eq!(label.text(), text);
}

#[test]
fn label_takes_exactly_its_text() {
    let mut p = fresh_placer(plain_grid(), widget_style());
    let text = Galley { size: Vec2::new(50, 12), halign: Align::Min };
    let laid_out = p.create(Label::new(text));
    assert_eq!(
        laid_out,
        LaidOutLabel {
            pos: Pos2::new(0, 0),
            response_rect: bounds(0, 0, 50, 12),
            text_galley: text,
            sense: Sense::hover(),
        }
    );
    assert_eq!(p.grid().curr_state(), &State::from_sizes(vec![50], vec![12]));
    assert_eq!(p.cursor().min, Pos2::new(8, 0));
}

#[test]
fn label_anchor_follows_the_alignment() {
    let mut p = fresh_placer(plain_grid(), widget_style());
    let size = Vec2::new(51, 12);
    let centered = p.create(Label::new(Galley { size, halign: Align::Center }));
    assert_eq!(centered.response_rect, bounds(0, 0, 51, 12));
    assert_eq!(centered.pos, Pos2::new(25, 0));
    let right = p.create(Label::new(Galley { size, halign: Align::Max }));
    assert_eq!(right.response_rect, bounds(8, 0, 59, 12));
    assert_eq!(right.pos, Pos2::new(59, 0));
}

#[test]
fn label_senses_the_focus_for_a_screen_reader() {
    let style = Style { screen_reader: true, ..widget_style() };
    let mut p = fresh_placer(plain_grid(), style);
    let text = Galley { size: Vec2::new(50, 12), halign: Align::Min };
    assert_eq!(p.create(Label::new(text)).sense, Sense::focusable_noninteractive());
    assert_eq!(p.create(Label::new(text).sense(Sense::drag())).sense, Sense::drag());
}

#[test]
fn label_reposition_moves_rect_and_anchor_together() {
    let mut label = LaidOutLabel {
        pos: Pos2::new(25, 12),
        response_rect: bounds(0, 10, 50, 22),
        text_galley: Galley { size: Vec2::new(50, 12), halign: Align::Center },
        sense: Sense::hover(),
    };
    label.reposition(100);
    assert_eq!(label.response_rect, bounds(0, 100, 50, 112));
    assert_eq!(label.pos, Pos2::new(25, 102));
    label.reposition(-4);
    assert_eq!(label.response_rect, bounds(0, -4, 50, 8));
    assert_eq!(label.pos, Pos2::new(25, -2));
}

#[test]
fn checkbox_without_text_is_a_square_of_the_interactive_height() {
    let mut p = fresh_placer(plain_grid(), widget_style());
    let laid_out = p.create(Checkbox::without_text(true));
    // The icon is 14 wide; raised to 18 by 18.
    assert_eq!(
        laid_out,
        LaidOutCheckbox {
            rect: bounds(0, 0, 18, 18),
            response_rect: bounds(0, 0, 18, 18),
            checked: true,
            text: None,
            icon_width: 14,
            icon_spacing: 4,
        }
    );
}

#[test]
fn checkbox_with_text_adds_icon_and_spacing() {
    let mut p = fresh_placer(plain_grid(), widget_style());
    // 14 + 4 + 50 wide, 20 high.
    let laid_out = p.create(Checkbox::new(false, Some(Vec2::new(50, 20))));
    assert_eq!(laid_out.rect, bounds(0, 0, 68, 20));
    assert_eq!(laid_out.response_rect, laid_out.rect);
    assert!(!laid_out.checked);
    assert_eq!(laid_out.text, Some(Vec2::new(50, 20)));
    // A short text: raised to the interactive size 40 by 18.
    let laid_out = p.create(Checkbox::new(false, Some(Vec2::new(5, 9))));
    assert_eq!(laid_out.rect.size(), Vec2::new(40, 18));
}

#[test]
fn checkbox_is_at_least_as_high_as_its_icon() {
    let style = Style { icon_width: 30, ..widget_style() };
    let mut p = fresh_placer(plain_grid(), style);
    assert_eq!(p.create(Checkbox::without_text(false)).rect.size(), Vec2::new(30, 30));
    assert_eq!(
        p.create(Checkbox::new(false, Some(Vec2::new(50, 20)))).rect.size(),
        Vec2::new(84, 30)
    );
}

#[test]
fn checkbox_reposition_centers_both_rectangles() {
    let mut checkbox = LaidOutCheckbox {
        rect: bounds(0, 0, 68, 20),
        response_rect: bounds(0, -5, 68, 26),
        checked: true,
        text: None,
        icon_width: 14,
        icon_spacing: 4,
    };
    checkbox.reposition(100);
    assert_eq!(checkbox.rect, bounds(0, 90, 68, 110));
    // An odd height: the middle is half a unit above `y`.
    assert_eq!(checkbox.response_rect, bounds(0, 85, 68, 116));
    assert!(checkbox.checked);
}

#[test]
fn radio_button_is_sized_like_a_checkbox() {
    let mut p = fresh_placer(plain_grid(), widget_style());
    let laid_out = p.create(RadioButton::new(true, Some(Vec2::new(50, 20))));
    assert_eq!(
        laid_out,
        LaidOutRadioButton {
            rect: bounds(0, 0, 68, 20),
            response_rect: bounds(0, 0, 68, 20),
            checked: true,
            text: Some(Vec2::new(50, 20)),
            icon_width: 14,
            icon_spacing: 4,
        }
    );
    assert_eq!(p.create(RadioButton::new(false, None)).rect.size(), Vec2::new(18, 18));
}

#[test]
fn radio_button_reposition_puts_the_top_at_y() {
    let mut radio = LaidOutRadioButton {
        rect: bounds(0, 0, 68, 20),
        response_rect: bounds(0, -5, 68, 26),
        checked: false,
        text: None,
        icon_width: 14,
        icon_spacing: 4,
    };
    radio.reposition(100);
    assert_eq!(radio.rect, bounds(0, 100, 68, 120));
    assert_eq!(radio.response_rect, bounds(0, 100, 68, 131));
}

#[test]
fn icon_text_wrap_width_leaves_room_for_the_icon() {
    let p = fresh_placer(Grid::new(1).max_col_width(120), widget_style());
    assert_eq!(p.icon_text_wrap_width(), 120 - 14 - 4);
    let p = fresh_placer(Grid::new(1), widget_style());
    assert_eq!(p.icon_text_wrap_width(), INFINITY);
}

#[test]
fn button_is_built_step_by_step() {
    let b = Button::new(Vec2::new(50, 12));
    assert_eq!(b.text, Vec2::new(50, 12));
    assert_eq!(b.shortcut_text, None);
    assert_eq!(b.wrap, None);
    assert_eq!(b.fill, None);
    assert_eq!(b.stroke, None);
    assert_eq!(b.sense, Sense::click());
    assert!(!b.small);
    assert_eq!(b.frame, None);
    assert_eq!(b.min_size, Vec2::new(0, 0));
    assert_eq!(b.rounding, None);
    assert_eq!(b.image, None);

    let red = Color32 { r: 200, g: 0, b: 0, a: 255 };
    assert_eq!(b.fill(red).fill, Some(red));
    assert_eq!(b.fill(red).frame, Some(true));
    assert_eq!(b.frame(false).fill(red).frame, Some(true));
    let stroke = Stroke { width: 2, color: red };
    assert_eq!(b.stroke(stroke).stroke, Some(stroke));
    assert_eq!(b.stroke(stroke).frame, Some(true));
    assert_eq!(b.frame(false).frame, Some(false));
    assert!(b.small().small);
    assert_eq!(b.wrap(true).wrap, Some(true));
    assert_eq!(b.sense(Sense::drag()).sense, Sense::drag());
    assert_eq!(b.min_size(Vec2::new(9, 8)).min_size, Vec2::new(9, 8));
    let rounding = Rounding { nw: 1, ne: 2, sw: 3, se: 4 };
    assert_eq!(b.rounding(rounding).rounding, Some(rounding));
    assert_eq!(b.shortcut_text(Vec2::new(30, 10)).shortcut_text, Some(Vec2::new(30, 10)));
    let image = Image { texture_id: 7, size: Vec2::new(16, 16) };
    let with_image = Button::image_and_text(image, Vec2::new(50, 12));
    assert_eq!(with_image.image, Some(image));
    assert_eq!(with_image.text, Vec2::new(50, 12));
    assert_eq!(with_image.sense, Sense::click());
}

#[test]
fn button_desired_size_adds_up_its_parts() {
    let style = widget_style();
    assert!(is_style_finite(&style));
    let b = Button::new(Vec2::new(50, 20));
    assert!(b.are_sizes_finite());
    // Text and padding on all sides.
    assert_eq!(b.compute_desired_size(&style), Vec2::new(58, 22));
    // A low text is raised to the interactive height.
    assert_eq!(Button::new(Vec2::new(50, 10)).compute_desired_size(&style), Vec2::new(58, 18));
    // A small button has no vertical padding and no least height.
    assert_eq!(
        Button::new(Vec2::new(50, 10)).small().compute_desired_size(&style),
        Vec2::new(58, 10)
    );
    // An image adds its width and the icon spacing, and may raise the height.
    let image = Image { texture_id: 7, size: Vec2::new(16, 30) };
    assert_eq!(
        Button::image_and_text(image, Vec2::new(50, 20)).compute_desired_size(&style),
        Vec2::new(50 + 16 + 4 + 8, 30 + 2)
    );
    // A shortcut text adds its width and the item spacing.
    assert_eq!(
        b.shortcut_text(Vec2::new(30, 25)).compute_desired_size(&style),
        Vec2::new(50 + 8 + 30 + 8, 25 + 2)
    );
    // The least size wins where it is larger.
    assert_eq!(
        b.min_size(Vec2::new(100, 5)).compute_desired_size(&style),
        Vec2::new(100, 22)
    );
    assert!(!Button::new(Vec2::new(INFINITY, 0)).are_sizes_finite());
}

#[test]
fn button_is_laid_out_with_its_options() {
    let mut p = fresh_placer(plain_grid(), widget_style());
    let red = Color32 { r: 200, g: 0, b: 0, a: 255 };
    let laid_out = p.create(Button::new(Vec2::new(50, 20)).fill(red).shortcut_text(Vec2::new(30, 10)));
    assert_eq!(
        laid_out,
        LaidOutButton {
            rect: bounds(0, 0, 96, 22),
            frame: true,
            fill: Some(red),
            stroke: None,
            rounding: None,
            image: None,
            button_padding: Vec2::new(4, 1),
            text: Vec2::new(50, 20),
            shortcut_text: Some(Vec2::new(30, 10)),
            sense: Sense::click(),
        }
    );
    assert_eq!(p.grid().curr_state(), &State::from_sizes(vec![96], vec![22]));
    // Nothing is remembered yet, so the cursor has moved on by the spacing
    // only, and the next cell is no higher than its content.
    let small = p.create(Button::new(Vec2::new(50, 20)).small().frame(false));
    assert_eq!(small.rect, bounds(8, 0, 66, 20));
    assert_eq!(small.button_padding, Vec2::new(4, 0));
    assert!(!small.frame);
}

#[test]
fn button_frame_defaults_to_the_style() {
    let style = Style { button_frame: false, ..widget_style() };
    let mut p = fresh_placer(plain_grid(), style);
    assert!(!p.create(Button::new(Vec2::new(50, 20))).frame);
    assert!(p.create(Button::new(Vec2::new(50, 20)).frame(true)).frame);
}

#[test]
fn button_reposition_centers_the_rectangle() {
    let mut button = LaidOutButton {
        rect: bounds(0, 0, 58, 22),
        frame: true,
        fill: None,
        stroke: None,
        rounding: None,
        image: None,
        button_padding: Vec2::new(4, 1),
        text: Vec2::new(50, 20),
        shortcut_text: None,
        sense: Sense::click(),
    };
    button.reposition(50);
    assert_eq!(button.rect, bounds(0, 39, 58, 61));
    assert_eq!(button.text, Vec2::new(50, 20));
}

#[test]
fn button_text_wrap_width_leaves_room_for_the_rest() {
    let p = fresh_placer(Grid::new(1).max_col_width(200), widget_style());
    assert_eq!(p.button_text_wrap_width(None, None, false), 200 - 8);
    assert_eq!(p.button_text_wrap_width(None, Some(Vec2::new(16, 16)), false), 200 - 8 - 16 - 4);
    assert_eq!(p.button_text_wrap_width(None, None, true), 200 - 8 - 60);
    assert_eq!(
        p.button_text_wrap_width(Some(true), Some(Vec2::new(16, 16)), true),
        200 - 8 - 16 - 4 - 60
    );
    assert_eq!(p.button_text_wrap_width(Some(false), None, true), INFINITY);
    let p = fresh_placer(Grid::new(1), widget_style());
    assert_eq!(p.button_text_wrap_width(None, None, false), INFINITY);
    // The least cell width 40 is what is offered where nothing is known.
    assert_eq!(p.button_text_wrap_width(Some(true), None, false), 40 - 8);
}

#[test]
fn label_wrap_width_is_what_the_cell_may_use() {
    let p = fresh_placer(Grid::new(1).max_col_width(120), widget_style());
    assert_eq!(p.label_wrap_width(None), 120);
    assert_eq!(p.label_wrap_width(Some(false)), INFINITY);
    let p = fresh_placer(Grid::new(1), widget_style());
    assert_eq!(p.label_wrap_width(None), INFINITY);
    assert_eq!(p.label_wrap_width(Some(true)), 40);
}
