//! Widgets as the layout sees them: how much space each asks for, and where
//! it ends up.
//!
//! A widget's text enters as the size that the text takes once it is laid
//! out. The caller lays it out at the width that the placer gives
//! ([`WidgetPlacer::label_wrap_width`],
//! [`WidgetPlacer::icon_text_wrap_width`],
//! [`WidgetPlacer::button_text_wrap_width`]). [`Create::create`] then
//! reserves the widget's space in the next cell of the grid and returns the
//! widget laid out.

use crate::geometry::{
    at_least, finite, half, half_floor, is_finite, max_of, Pos2, Rect, Vec2, INFINITY,
};
use crate::grid::left_center;
use crate::layout::Style;
use crate::placer::{lemma_left_center_within, lemma_offer_bounded, PlacerModel, WidgetPlacer};
use vstd::prelude::*;

verus! {

/// The room kept free for a button's shortcut text when its main text is
/// wrapped.
pub const SHORTCUT_ROOM: i64 = 60;

/// What a widget senses.
#[derive(Clone, Copy, Debug, PartialEq, Eq, Structural)]
pub struct Sense {
    /// Clicks.
    pub click: bool,
    /// Drags.
    pub drag: bool,
    /// The keyboard focus.
    pub focusable: bool,
}

impl Sense {
    /// Senses nothing but the pointer being over the widget.
    pub fn hover() -> (r: Sense)
        ensures
            r == (Sense { click: false, drag: false, focusable: false }),
    {
        Sense { click: false, drag: false, focusable: false }
    }

    /// Senses the keyboard focus only, as a label does for a screen reader.
    pub fn focusable_noninteractive() -> (r: Sense)
        ensures
            r == (Sense { click: false, drag: false, focusable: true }),
    {
        Sense { click: false, drag: false, focusable: true }
    }

    /// Senses clicks, as a button does.
    pub fn click() -> (r: Sense)
        ensures
            r == (Sense { click: true, drag: false, focusable: true }),
    {
        Sense { click: true, drag: false, focusable: true }
    }

    /// Senses drags, as a slider does.
    pub fn drag() -> (r: Sense)
        ensures
            r == (Sense { click: false, drag: true, focusable: true }),
    {
        Sense { click: false, drag: true, focusable: true }
    }
}

/// Where something lies along one direction.
#[derive(Clone, Copy, Debug, PartialEq, Eq, Structural)]
pub enum Align {
    /// At the left or the top.
    Min,
    /// In the middle.
    Center,
    /// At the right or the bottom.
    Max,
}

/// A text that was laid out.
#[derive(Clone, Copy, Debug, PartialEq, Eq, Structural)]
pub struct Galley {
    /// The size of the laid-out text.
    pub size: Vec2,
    /// How the lines of the text are aligned.
    pub halign: Align,
}

/// Laying out a widget in the next free place.
pub trait Create<W> {
    /// The widget once it has its place.
    type LaidOutWidget;

    /// Whether `widget` can be laid out now.
    spec fn can_create(&self, widget: &W) -> bool;

    /// How the state after laying out `widget`, and the widget laid out,
    /// follow from the state before.
    spec fn created(&self, widget: &W, after: &Self, laid_out: &Self::LaidOutWidget) -> bool;

    /// Lays out `widget`.
    fn create(&mut self, widget: W) -> (laid_out: Self::LaidOutWidget)
        requires
            old(self).can_create(&widget),
        ensures
            old(self).created(&widget, final(self), &laid_out),
    ;
}

impl WidgetPlacer {
    /// The width at which to wrap a text for which `available_width` is
    /// there: that width where the text wraps, and unbounded where it does
    /// not. Whether it wraps is `wrap` where given, else as
    /// [`WidgetPlacer::wrap_text`] says.
    pub fn wrap_width(&self, wrap: Option<bool>, available_width: i64) -> (r: i64)
        ensures
            r == self@.wrap_width(wrap, available_width),
    {
        let wrap = match wrap {
            Some(w) => w,
            None => self.wrap_text(),
        };
        if wrap {
            available_width
        } else {
            INFINITY
        }
    }
}

impl PlacerModel {
    /// Whether text wraps: as the style says, where it says; else where the
    /// grid's greatest cell width is finite.
    pub open spec fn wrap_text(self) -> bool {
        match self.style.wrap {
            Some(wrap) => wrap,
            None => finite(self.grid.max_cell_size.x as int),
        }
    }

    /// The width at which to wrap a text for which `available_width` is
    /// there.
    pub open spec fn wrap_width(self, wrap: Option<bool>, available_width: i64) -> i64 {
        let wraps = match wrap {
            Some(w) => w,
            None => self.wrap_text(),
        };
        if wraps {
            available_width
        } else {
            INFINITY
        }
    }
}

/// Static text.
#[must_use]
#[derive(Clone, Copy, Debug)]
pub struct Label {
    /// The text, laid out.
    pub text: Galley,
    /// Whether the text wraps to stay within the width there is, if given.
    pub wrap: Option<bool>,
    /// What the label senses, if given.
    pub sense: Option<Sense>,
}

impl Label {
    /// A label with the laid-out text `text`.
    pub fn new(text: Galley) -> (r: Label)
        ensures
            r == (Label { text, wrap: None, sense: None }),
    {
        Label { text, wrap: None, sense: None }
    }

    /// The text, laid out.
    pub fn text(&self) -> (r: Galley)
        ensures
            r == self.text,
    {
        self.text
    }

    /// Says whether the text wraps to stay within the width there is.
    /// Unset, the placer decides.
    pub fn wrap(self, wrap: bool) -> (r: Label)
        ensures
            r == (Label { wrap: Some(wrap), ..self }),
    {
        Label { wrap: Some(wrap), ..self }
    }

    /// Makes the label respond to clicks, drags or the keyboard focus.
    /// Unset, a label senses nothing, or the focus where a screen reader is
    /// on.
    pub fn sense(self, sense: Sense) -> (r: Label)
        ensures
            r == (Label { sense: Some(sense), ..self }),
    {
        Label { sense: Some(sense), ..self }
    }

    /// What the label senses under `style`.
    pub open spec fn resolved_sense(self, style: Style) -> Sense {
        match self.sense {
            Some(s) => s,
            None => if style.screen_reader {
                Sense { click: false, drag: false, focusable: true }
            } else {
                Sense { click: false, drag: false, focusable: false }
            },
        }
    }
}

/// A label that has its place.
#[derive(Clone, Copy, Debug, PartialEq, Eq, Structural)]
pub struct LaidOutLabel {
    /// Where the text is anchored: on the top edge of its rectangle, at the
    /// left, the middle or the right as the text is aligned.
    pub pos: Pos2,
    /// The rectangle in which the label responds.
    pub response_rect: Rect,
    /// The text, laid out.
    pub text_galley: Galley,
    /// What the label senses.
    pub sense: Sense,
}

/// The anchor of a text aligned as `halign` in `rect`.
pub open spec fn text_anchor(halign: Align, rect: Rect) -> Pos2 {
    match halign {
        Align::Min => rect.min,
        Align::Center => Pos2 { x: rect.spec_center().x, y: rect.min.y },
        Align::Max => Pos2 { x: rect.max.x, y: rect.min.y },
    }
}

impl LaidOutLabel {
    /// Moves the label down or up so that the top of its rectangle is at
    /// `y`.
    pub fn reposition(&mut self, y: i64)
        requires
            finite(y as int),
            old(self).response_rect.finite(),
            finite(old(self).pos.y as int),
        ensures
            final(self).response_rect == old(self).response_rect.spec_translate(
                Vec2 { x: 0, y: (y - old(self).response_rect.min.y) as i64 },
            ),
            final(self).response_rect.min.y == y,
            final(self).response_rect.spec_size() == old(self).response_rect.spec_size(),
            final(self).pos.x == old(self).pos.x,
            final(self).pos.y == old(self).pos.y + (y - old(self).response_rect.min.y),
            final(self).text_galley == old(self).text_galley,
            final(self).sense == old(self).sense,
    {
        let diff = Vec2 { x: 0, y: y - self.response_rect.top() };
        self.pos.y = self.pos.y + diff.y;
        self.response_rect = self.response_rect.translate(diff);
    }
}

impl Create<Label> for WidgetPlacer {
    type LaidOutWidget = LaidOutLabel;

    open spec fn can_create(&self, widget: &Label) -> bool {
        self@.can_allocate(widget.text.size)
    }

    open spec fn created(&self, widget: &Label, after: &Self, laid_out: &LaidOutLabel) -> bool {
        let rect = left_center(widget.text.size, self@.frame(widget.text.size));
        &&& after@ == self@.allocate(widget.text.size)
        &&& after.wf()
        &&& *laid_out == (LaidOutLabel {
            pos: text_anchor(widget.text.halign, rect),
            response_rect: rect,
            text_galley: widget.text,
            sense: widget.resolved_sense(self@.style),
        })
    }

    /// Lays out a label: reserves exactly the size of its text, and
    /// anchors the text at the top of that rectangle as it is aligned.
    fn create(&mut self, label: Label) -> (laid_out: LaidOutLabel) {
        let sense = match label.sense {
            Some(s) => s,
            None => {
                // Labels take the focus only for a screen reader.
                if self.style().screen_reader {
                    Sense::focusable_noninteractive()
                } else {
                    Sense::hover()
                }
            },
        };
        proof {
            lemma_left_center_within(label.text.size, self@.frame(label.text.size));
        }
        let (rect, response_rect) = self.allocate_exact_size(label.text.size);
        let pos = match label.text.halign {
            Align::Min => rect.left_top(),
            Align::Center => rect.center_top(),
            Align::Max => rect.right_top(),
        };
        LaidOutLabel { pos, text_galley: label.text, response_rect, sense }
    }
}

/// A check box with an optional text beside it.
#[must_use]
#[derive(Clone, Copy, Debug)]
pub struct Checkbox {
    /// Whether the box is checked.
    pub checked: bool,
    /// The size of the text beside the box, laid out; `None` for no text.
    pub text: Option<Vec2>,
}

impl Checkbox {
    /// A check box with the text of laid-out size `text` beside it.
    pub fn new(checked: bool, text: Option<Vec2>) -> (r: Checkbox)
        ensures
            r == (Checkbox { checked, text }),
    {
        Checkbox { checked, text }
    }

    /// A check box with no text.
    pub fn without_text(checked: bool) -> (r: Checkbox)
        ensures
            r == (Checkbox { checked, text: None }),
    {
        Checkbox { checked, text: None }
    }
}

/// One of several alternatives, either selected or not, with an optional
/// text beside it.
#[must_use]
#[derive(Clone, Copy, Debug)]
pub struct RadioButton {
    /// Whether the alternative is selected.
    pub checked: bool,
    /// The size of the text beside the button, laid out; `None` for no text.
    pub text: Option<Vec2>,
}

impl RadioButton {
    /// A radio button with the text of laid-out size `text` beside it.
    pub fn new(checked: bool, text: Option<Vec2>) -> (r: RadioButton)
        ensures
            r == (RadioButton { checked, text }),
    {
        RadioButton { checked, text }
    }
}

/// The size that an icon with an optional text beside it asks for: with no
/// text, the icon's width and no height; with text, the icon, the space
/// beside it and the text, raised to the standard interactive size. Either
/// way it is then raised to a square of the standard interactive height, and
/// its height to the icon's.
pub open spec fn icon_and_text_size(text: Option<Vec2>, style: Style) -> Vec2 {
    let base = match text {
        None => Vec2 { x: style.icon_width, y: 0 },
        Some(t) => Vec2 {
            x: max_of((style.icon_width + style.icon_spacing + t.x) as i64, style.interact_size.x),
            y: max_of(t.y, style.interact_size.y),
        },
    };
    Vec2 {
        x: max_of(base.x, style.interact_size.y),
        y: max_of(max_of(base.y, style.interact_size.y), style.icon_width),
    }
}

/// The style's lengths that widgets read are finite.
pub open spec fn style_finite(style: Style) -> bool {
    &&& style.item_spacing.finite()
    &&& style.interact_size.finite()
    &&& style.button_padding.finite()
    &&& finite(style.icon_width as int)
    &&& finite(style.icon_spacing as int)
}

/// Computes whether the style's lengths that widgets read are finite.
pub fn is_style_finite(style: &Style) -> (r: bool)
    ensures
        r == style_finite(*style),
{
    style.item_spacing.is_finite() && style.interact_size.is_finite()
        && style.button_padding.is_finite() && is_finite(style.icon_width)
        && is_finite(style.icon_spacing)
}

/// Computes the size that an icon with an optional text beside it asks for.
fn icon_and_text_desired_size(text: Option<Vec2>, style: &Style) -> (r: Vec2)
    requires
        style_finite(*style),
        text matches Some(t) ==> t.finite(),
    ensures
        r == icon_and_text_size(text, *style),
{
    let base = match text {
        None => Vec2 { x: style.icon_width, y: 0 },
        Some(t) => {
            let total_extra = Vec2 { x: style.icon_width + style.icon_spacing, y: 0 };
            Vec2 { x: total_extra.x + t.x, y: total_extra.y + t.y }.max(style.interact_size)
        },
    };
    let base = base.max(Vec2 { x: style.interact_size.y, y: style.interact_size.y });
    Vec2 { x: base.x, y: at_least(base.y, style.icon_width) }
}

impl WidgetPlacer {
    /// The width at which to wrap the text of a label: what the next cell
    /// may use.
    pub fn label_wrap_width(&self, wrap: Option<bool>) -> (r: i64)
        requires
            self@.can_offer(),
        ensures
            r == self@.wrap_width(
                wrap,
                self@.grid.offered_width(self@.region.cursor.min.x) as i64,
            ),
    {
        let available = self.available_size().x;
        self.wrap_width(wrap, available)
    }

    /// The width at which to wrap the text beside an icon: what the next
    /// cell may use, less the icon and the space beside it.
    pub fn icon_text_wrap_width(&self) -> (r: i64)
        requires
            self@.can_offer(),
            style_finite(self@.style),
        ensures
            r == self@.wrap_width(
                None,
                (self@.grid.offered_width(self@.region.cursor.min.x) - (self@.style.icon_width
                    + self@.style.icon_spacing)) as i64,
            ),
    {
        let available = self.available_size().x;
        proof {
            lemma_offer_bounded(self@);
        }
        let style = self.style();
        let wrap_width = available - (style.icon_width + style.icon_spacing);
        self.wrap_width(None, wrap_width)
    }
}

/// A check box that has its place.
#[derive(Clone, Copy, Debug, PartialEq, Eq)]
pub struct LaidOutCheckbox {
    /// Where the check box is drawn.
    pub rect: Rect,
    /// The rectangle in which the check box responds.
    pub response_rect: Rect,
    /// Whether the box is checked.
    pub checked: bool,
    /// The size of the text beside the box; `None` for no text.
    pub text: Option<Vec2>,
    /// The width and height of the icon.
    pub icon_width: i64,
    /// The space between the icon and the text.
    pub icon_spacing: i64,
}

/// A radio button that has its place.
#[derive(Clone, Copy, Debug, PartialEq, Eq)]
pub struct LaidOutRadioButton {
    /// Where the radio button is drawn.
    pub rect: Rect,
    /// The rectangle in which the radio button responds.
    pub response_rect: Rect,
    /// Whether the alternative is selected.
    pub checked: bool,
    /// The size of the text beside the button; `None` for no text.
    pub text: Option<Vec2>,
    /// The width and height of the icon.
    pub icon_width: i64,
    /// The space between the icon and the text.
    pub icon_spacing: i64,
}

/// `rect` moved down or up so that `y` lies half way between its top and
/// its bottom; where its height is odd, `y` lies the half unit lower than
/// the middle.
pub open spec fn centered_at(rect: Rect, y: i64) -> Rect {
    Rect {
        min: Pos2 { x: rect.min.x, y: (y - half(rect.spec_height())) as i64 },
        max: Pos2 { x: rect.max.x, y: (y - half(rect.spec_height()) + rect.spec_height()) as i64 },
    }
}

/// `rect` moved down or up so that its top is at `y`.
pub open spec fn top_at(rect: Rect, y: i64) -> Rect {
    Rect {
        min: Pos2 { x: rect.min.x, y },
        max: Pos2 { x: rect.max.x, y: (y + rect.spec_height()) as i64 },
    }
}

/// Moves `rect` down or up so that `y` lies half way between its top and its
/// bottom.
fn center_at(rect: Rect, y: i64) -> (r: Rect)
    requires
        rect.finite(),
        finite(y as int),
    ensures
        r == centered_at(rect, y),
        r.spec_size() == rect.spec_size(),
{
    let height = rect.height();
    let top = y - half_floor(height);
    Rect { min: Pos2 { x: rect.min.x, y: top }, max: Pos2 { x: rect.max.x, y: top + height } }
}

/// Moves `rect` down or up so that its top is at `y`.
fn put_top_at(rect: Rect, y: i64) -> (r: Rect)
    requires
        rect.finite(),
        finite(y as int),
    ensures
        r == top_at(rect, y),
        r.spec_size() == rect.spec_size(),
{
    Rect { min: Pos2 { x: rect.min.x, y }, max: Pos2 { x: rect.max.x, y: y + rect.height() } }
}

impl LaidOutCheckbox {
    /// Moves the check box down or up so that `y` lies half way between
    /// the top and the bottom of each of its rectangles. Their sizes stay.
    pub fn reposition(&mut self, y: i64)
        requires
            finite(y as int),
            old(self).rect.finite(),
            old(self).response_rect.finite(),
        ensures
            *final(self) == (LaidOutCheckbox {
                rect: centered_at(old(self).rect, y),
                response_rect: centered_at(old(self).response_rect, y),
                ..*old(self)
            }),
    {
        self.rect = center_at(self.rect, y);
        self.response_rect = center_at(self.response_rect, y);
    }
}

impl LaidOutRadioButton {
    /// Moves the radio button down or up so that the top of each of its
    /// rectangles is at `y`. Their sizes stay.
    pub fn reposition(&mut self, y: i64)
        requires
            finite(y as int),
            old(self).rect.finite(),
            old(self).response_rect.finite(),
        ensures
            *final(self) == (LaidOutRadioButton {
                rect: top_at(old(self).rect, y),
                response_rect: top_at(old(self).response_rect, y),
                ..*old(self)
            }),
    {
        self.rect = put_top_at(self.rect, y);
        self.response_rect = put_top_at(self.response_rect, y);
    }
}

impl Create<Checkbox> for WidgetPlacer {
    type LaidOutWidget = LaidOutCheckbox;

    open spec fn can_create(&self, widget: &Checkbox) -> bool {
        &&& style_finite(self@.style)
        &&& widget.text matches Some(t) ==> t.finite()
        &&& self@.can_allocate(icon_and_text_size(widget.text, self@.style))
    }

    open spec fn created(&self, widget: &Checkbox, after: &Self, laid_out: &LaidOutCheckbox) -> bool {
        let desired_size = icon_and_text_size(widget.text, self@.style);
        let rect = left_center(desired_size, self@.frame(desired_size));
        &&& after@ == self@.allocate(desired_size)
        &&& after.wf()
        &&& *laid_out == (LaidOutCheckbox {
            rect,
            response_rect: rect,
            checked: widget.checked,
            text: widget.text,
            icon_width: self@.style.icon_width,
            icon_spacing: self@.style.icon_spacing,
        })
    }

    /// Lays out a check box: reserves room for the icon and the text
    /// beside it.
    fn create(&mut self, checkbox: Checkbox) -> (laid_out: LaidOutCheckbox) {
        let Checkbox { checked, text } = checkbox;
        let style = self.style();
        let icon_width = style.icon_width;
        let icon_spacing = style.icon_spacing;
        let desired_size = icon_and_text_desired_size(text, &style);
        let (rect, response_rect) = self.allocate_exact_size(desired_size);
        LaidOutCheckbox { rect, response_rect, checked, text, icon_width, icon_spacing }
    }
}

impl Create<RadioButton> for WidgetPlacer {
    type LaidOutWidget = LaidOutRadioButton;

    open spec fn can_create(&self, widget: &RadioButton) -> bool {
        &&& style_finite(self@.style)
        &&& widget.text matches Some(t) ==> t.finite()
        &&& self@.can_allocate(icon_and_text_size(widget.text, self@.style))
    }

    open spec fn created(
        &self,
        widget: &RadioButton,
        after: &Self,
        laid_out: &LaidOutRadioButton,
    ) -> bool {
        let desired_size = icon_and_text_size(widget.text, self@.style);
        let rect = left_center(desired_size, self@.frame(desired_size));
        &&& after@ == self@.allocate(desired_size)
        &&& after.wf()
        &&& *laid_out == (LaidOutRadioButton {
            rect,
            response_rect: rect,
            checked: widget.checked,
            text: widget.text,
            icon_width: self@.style.icon_width,
            icon_spacing: self@.style.icon_spacing,
        })
    }

    /// Lays out a radio button: reserves room for the icon and the text
    /// beside it.
    fn create(&mut self, radio: RadioButton) -> (laid_out: LaidOutRadioButton) {
        let RadioButton { checked, text } = radio;
        let style = self.style();
        let icon_width = style.icon_width;
        let icon_spacing = style.icon_spacing;
        let desired_size = icon_and_text_desired_size(text, &style);
        let (rect, response_rect) = self.allocate_exact_size(desired_size);
        LaidOutRadioButton { rect, response_rect, checked, text, icon_width, icon_spacing }
    }
}

/// A colour: red, green, blue and opacity.
#[derive(Clone, Copy, Debug, PartialEq, Eq, Structural)]
pub struct Color32 {
    pub r: u8,
    pub g: u8,
    pub b: u8,
    pub a: u8,
}

/// The outline of a shape: its width and its colour.
#[derive(Clone, Copy, Debug, PartialEq, Eq, Structural)]
pub struct Stroke {
    pub width: i64,
    pub color: Color32,
}

/// How far each corner of a rectangle is rounded.
#[derive(Clone, Copy, Debug, PartialEq, Eq, Structural)]
pub struct Rounding {
    pub nw: i64,
    pub ne: i64,
    pub sw: i64,
    pub se: i64,
}

/// An image to show: the texture's identifier and the size to show it at.
#[derive(Clone, Copy, Debug, PartialEq, Eq, Structural)]
pub struct Image {
    pub texture_id: u64,
    pub size: Vec2,
}

/// A clickable button with a text, and optionally an image to the left of
/// the text and a shortcut text to its right.
#[must_use]
#[derive(Clone, Copy, Debug)]
pub struct Button {
    /// The size of the text, laid out.
    pub text: Vec2,
    /// The size of the shortcut text, laid out; `None` for none.
    pub shortcut_text: Option<Vec2>,
    /// Whether the text wraps to stay within the width there is, if given.
    pub wrap: Option<bool>,
    /// The background colour; `None` for the one that the interaction gives.
    pub fill: Option<Color32>,
    /// The outline; `None` for the one that the interaction gives.
    pub stroke: Option<Stroke>,
    /// What the button senses.
    pub sense: Sense,
    /// Whether the button is small enough to sit within text.
    pub small: bool,
    /// Whether the button has a frame, if given.
    pub frame: Option<bool>,
    /// The least size of the button.
    pub min_size: Vec2,
    /// The rounding of the frame; `None` for the one that the interaction
    /// gives.
    pub rounding: Option<Rounding>,
    /// The image to the left of the text, if any.
    pub image: Option<Image>,
}

impl Button {
    /// A button with the text of laid-out size `text`.
    pub fn new(text: Vec2) -> (r: Button)
        ensures
            r == (Button {
                text,
                shortcut_text: None,
                wrap: None,
                fill: None,
                stroke: None,
                sense: Sense { click: true, drag: false, focusable: true },
                small: false,
                frame: None,
                min_size: Vec2 { x: 0, y: 0 },
                rounding: None,
                image: None,
            }),
    {
        Button {
            text,
            shortcut_text: None,
            wrap: None,
            fill: None,
            stroke: None,
            sense: Sense::click(),
            small: false,
            frame: None,
            min_size: Vec2 { x: 0, y: 0 },
            rounding: None,
            image: None,
        }
    }

    /// A button with an image to the left of its text.
    pub fn image_and_text(image: Image, text: Vec2) -> (r: Button)
        ensures
            r == (Button {
                text,
                shortcut_text: None,
                wrap: None,
                fill: None,
                stroke: None,
                sense: Sense { click: true, drag: false, focusable: true },
                small: false,
                frame: None,
                min_size: Vec2 { x: 0, y: 0 },
                rounding: None,
                image: Some(image),
            }),
    {
        Button { image: Some(image), ..Button::new(text) }
    }

    /// Says whether the text wraps to stay within the width there is.
    /// Unset, the placer decides.
    pub fn wrap(self, wrap: bool) -> (r: Button)
        ensures
            r == (Button { wrap: Some(wrap), ..self }),
    {
        Button { wrap: Some(wrap), ..self }
    }

    /// Sets the background colour, in place of the one that the interaction
    /// gives. This also turns the frame on.
    pub fn fill(self, fill: Color32) -> (r: Button)
        ensures
            r == (Button { fill: Some(fill), frame: Some(true), ..self }),
    {
        Button { fill: Some(fill), frame: Some(true), ..self }
    }

    /// Sets the outline, in place of the one that the interaction gives.
    /// This also turns the frame on.
    pub fn stroke(self, stroke: Stroke) -> (r: Button)
        ensures
            r == (Button { stroke: Some(stroke), frame: Some(true), ..self }),
    {
        Button { stroke: Some(stroke), frame: Some(true), ..self }
    }

    /// Makes the button small enough to sit within text: it gets no
    /// vertical padding and need not be as tall as the standard interactive
    /// size.
    pub fn small(self) -> (r: Button)
        ensures
            r == (Button { small: true, ..self }),
    {
        Button { small: true, ..self }
    }

    /// Turns the frame on or off.
    pub fn frame(self, frame: bool) -> (r: Button)
        ensures
            r == (Button { frame: Some(frame), ..self }),
    {
        Button { frame: Some(frame), ..self }
    }

    /// Sets what the button senses. Unset, it senses clicks.
    pub fn sense(self, sense: Sense) -> (r: Button)
        ensures
            r == (Button { sense, ..self }),
    {
        Button { sense, ..self }
    }

    /// Sets the least size of the button.
    pub fn min_size(self, min_size: Vec2) -> (r: Button)
        ensures
            r == (Button { min_size, ..self }),
    {
        Button { min_size, ..self }
    }

    /// Sets the rounding of the frame.
    pub fn rounding(self, rounding: Rounding) -> (r: Button)
        ensures
            r == (Button { rounding: Some(rounding), ..self }),
    {
        Button { rounding: Some(rounding), ..self }
    }

    /// Shows a text of laid-out size `shortcut_text` on the right side of
    /// the button, as for a keyboard shortcut in a menu.
    pub fn shortcut_text(self, shortcut_text: Vec2) -> (r: Button)
        ensures
            r == (Button { shortcut_text: Some(shortcut_text), ..self }),
    {
        Button { shortcut_text: Some(shortcut_text), ..self }
    }

    /// The padding between the button's edge and its content under
    /// `style`: the style's, without the vertical part for a small button.
    pub open spec fn padding(self, style: Style) -> Vec2 {
        Vec2 {
            x: style.button_padding.x,
            y: if self.small {
                0
            } else {
                style.button_padding.y
            },
        }
    }

    /// The size that the button asks for under `style`: its text; beside
    /// it the image with the icon spacing, and the shortcut text with the
    /// item spacing, each raising the height to its own; around that the
    /// padding; the height raised to the standard interactive height unless
    /// the button is small; and all of it raised to the button's least
    /// size.
    pub open spec fn desired_size(self, style: Style) -> Vec2 {
        let with_image = match self.image {
            Some(image) => Vec2 {
                x: (self.text.x + image.size.x + style.icon_spacing) as i64,
                y: max_of(self.text.y, image.size.y),
            },
            None => self.text,
        };
        let with_shortcut = match self.shortcut_text {
            Some(shortcut) => Vec2 {
                x: (with_image.x + style.item_spacing.x + shortcut.x) as i64,
                y: max_of(with_image.y, shortcut.y),
            },
            None => with_image,
        };
        let padded = Vec2 {
            x: (with_shortcut.x + 2 * self.padding(style).x) as i64,
            y: (with_shortcut.y + 2 * self.padding(style).y) as i64,
        };
        let tall = Vec2 {
            x: padded.x,
            y: if self.small {
                padded.y
            } else {
                max_of(padded.y, style.interact_size.y)
            },
        };
        tall.spec_max(self.min_size)
    }

    /// Every length of the button is finite.
    pub open spec fn sizes_finite(self) -> bool {
        &&& self.text.finite()
        &&& self.min_size.finite()
        &&& self.shortcut_text matches Some(s) ==> s.finite()
        &&& self.image matches Some(i) ==> i.size.finite()
    }

    /// Computes whether every length of the button is finite.
    pub fn are_sizes_finite(&self) -> (r: bool)
        ensures
            r == self.sizes_finite(),
    {
        self.text.is_finite() && self.min_size.is_finite() && (match self.shortcut_text {
            Some(s) => s.is_finite(),
            None => true,
        }) && (match self.image {
            Some(i) => i.size.is_finite(),
            None => true,
        })
    }

    /// Computes the size that the button asks for under `style`.
    pub fn compute_desired_size(&self, style: &Style) -> (r: Vec2)
        requires
            style_finite(*style),
            self.sizes_finite(),
        ensures
            r == self.desired_size(*style),
    {
        let mut button_padding = style.button_padding;
        if self.small {
            button_padding.y = 0;
        }
        let mut desired_size = self.text;
        match self.image {
            Some(image) => {
                desired_size.x = desired_size.x + (image.size.x + style.icon_spacing);
                desired_size.y = at_least(desired_size.y, image.size.y);
            },
            None => {},
        }
        match self.shortcut_text {
            Some(shortcut) => {
                desired_size.x = desired_size.x + (style.item_spacing.x + shortcut.x);
                desired_size.y = at_least(desired_size.y, shortcut.y);
            },
            None => {},
        }
        desired_size.x = desired_size.x + 2 * button_padding.x;
        desired_size.y = desired_size.y + 2 * button_padding.y;
        if !self.small {
            desired_size.y = at_least(desired_size.y, style.interact_size.y);
        }
        desired_size.max(self.min_size)
    }
}

impl PlacerModel {
    /// The width that is there for a button's text: what the next cell may
    /// use, less the padding on both sides, less the image and the icon
    /// spacing where there is an image, less [`SHORTCUT_ROOM`] where there is
    /// a shortcut text.
    pub open spec fn button_text_room(self, image: Option<Vec2>, has_shortcut: bool) -> int {
        self.grid.offered_width(self.region.cursor.min.x) - 2 * self.style.button_padding.x - (
        match image {
            Some(size) => size.x + self.style.icon_spacing,
            None => 0,
        }) - (if has_shortcut {
            SHORTCUT_ROOM as int
        } else {
            0
        })
    }
}

impl WidgetPlacer {
    /// The width at which to wrap the text of a button that has an image of
    /// size `image`, if any, and a shortcut text or none.
    pub fn button_text_wrap_width(
        &self,
        wrap: Option<bool>,
        image: Option<Vec2>,
        has_shortcut: bool,
    ) -> (r: i64)
        requires
            self@.can_offer(),
            style_finite(self@.style),
            image matches Some(size) ==> size.finite(),
        ensures
            r == self@.wrap_width(wrap, self@.button_text_room(image, has_shortcut) as i64),
    {
        let style = self.style();
        let available = self.available_size().x;
        proof {
            lemma_offer_bounded(self@);
        }
        let mut text_wrap_width = available - 2 * style.button_padding.x;
        match image {
            Some(size) => {
                text_wrap_width = text_wrap_width - (size.x + style.icon_spacing);
            },
            None => {},
        }
        if has_shortcut {
            // Room for the shortcut text, which never wraps.
            text_wrap_width = text_wrap_width - SHORTCUT_ROOM;
        }
        self.wrap_width(wrap, text_wrap_width)
    }
}

/// A button that has its place.
#[derive(Clone, Copy, Debug, PartialEq, Eq)]
pub struct LaidOutButton {
    /// Where the button is drawn and where it responds.
    pub rect: Rect,
    /// Whether the button has a frame.
    pub frame: bool,
    /// The background colour; `None` for the one that the interaction gives.
    pub fill: Option<Color32>,
    /// The outline; `None` for the one that the interaction gives.
    pub stroke: Option<Stroke>,
    /// The rounding of the frame; `None` for the one that the interaction
    /// gives.
    pub rounding: Option<Rounding>,
    /// The image to the left of the text, if any.
    pub image: Option<Image>,
    /// The padding between the button's edge and its content.
    pub button_padding: Vec2,
    /// The size of the text.
    pub text: Vec2,
    /// The size of the shortcut text; `None` for none.
    pub shortcut_text: Option<Vec2>,
    /// What the button senses.
    pub sense: Sense,
}

impl LaidOutButton {
    /// Moves the button down or up so that `y` lies half way between its
    /// top and its bottom. Its size stays.
    pub fn reposition(&mut self, y: i64)
        requires
            finite(y as int),
            old(self).rect.finite(),
        ensures
            *final(self) == (LaidOutButton { rect: centered_at(old(self).rect, y), ..*old(self) }),
    {
        self.rect = center_at(self.rect, y);
    }
}

impl Create<Button> for WidgetPlacer {
    type LaidOutWidget = LaidOutButton;

    open spec fn can_create(&self, widget: &Button) -> bool {
        &&& style_finite(self@.style)
        &&& widget.sizes_finite()
        &&& self@.can_allocate(widget.desired_size(self@.style))
    }

    open spec fn created(&self, widget: &Button, after: &Self, laid_out: &LaidOutButton) -> bool {
        let desired_size = widget.desired_size(self@.style);
        &&& after@ == self@.allocate(desired_size)
        &&& after.wf()
        &&& *laid_out == (LaidOutButton {
            rect: left_center(desired_size, self@.frame(desired_size)),
            frame: match widget.frame {
                Some(frame) => frame,
                None => self@.style.button_frame,
            },
            fill: widget.fill,
            stroke: widget.stroke,
            rounding: widget.rounding,
            image: widget.image,
            button_padding: widget.padding(self@.style),
            text: widget.text,
            shortcut_text: widget.shortcut_text,
            sense: widget.sense,
        })
    }

    /// Lays out a button: reserves room for its text, image and shortcut
    /// text within its padding.
    fn create(&mut self, button: Button) -> (laid_out: LaidOutButton) {
        let style = self.style();
        let frame = match button.frame {
            Some(frame) => frame,
            None => style.button_frame,
        };
        let mut button_padding = style.button_padding;
        if button.small {
            button_padding.y = 0;
        }
        let desired_size = button.compute_desired_size(&style);
        let rect = self.allocate_space(desired_size);
        LaidOutButton {
            rect,
            frame,
            fill: button.fill,
            stroke: button.stroke,
            rounding: button.rounding,
            image: button.image,
            button_padding,
            text: button.text,
            shortcut_text: button.shortcut_text,
            sense: button.sense,
        }
    }
}

impl WidgetPlacer {
    /// Computes whether `label` can be laid out now, given that the grid is
    /// well-formed.
    pub fn can_create_label(&self, label: &Label) -> (r: bool)
        requires
            self@.grid.wf(),
        ensures
            r == self.can_create(label),
    {
        self.can_allocate(label.text.size)
    }

    /// Computes whether `checkbox` can be laid out now, given that the grid
    /// is well-formed.
    pub fn can_create_checkbox(&self, checkbox: &Checkbox) -> (r: bool)
        requires
            self@.grid.wf(),
        ensures
            r == self.can_create(checkbox),
    {
        self.can_create_icon_and_text(checkbox.text)
    }

    /// Computes whether `radio` can be laid out now, given that the grid is
    /// well-formed.
    pub fn can_create_radio_button(&self, radio: &RadioButton) -> (r: bool)
        requires
            self@.grid.wf(),
        ensures
            r == self.can_create(radio),
    {
        self.can_create_icon_and_text(radio.text)
    }

    /// Computes whether `button` can be laid out now, given that the grid
    /// is well-formed.
    pub fn can_create_button(&self, button: &Button) -> (r: bool)
        requires
            self@.grid.wf(),
        ensures
            r == self.can_create(button),
    {
        let style = self.style();
        if is_style_finite(&style) && button.are_sizes_finite() {
            self.can_allocate(button.compute_desired_size(&style))
        } else {
            false
        }
    }

    /// Computes whether an icon with the text `text` beside it can be laid
    /// out now.
    fn can_create_icon_and_text(&self, text: Option<Vec2>) -> (r: bool)
        requires
            self@.grid.wf(),
        ensures
            r == (style_finite(self@.style) && (text matches Some(t) ==> t.finite())
                && self@.can_allocate(icon_and_text_size(text, self@.style))),
    {
        let style = self.style();
        let text_finite = match text {
            Some(t) => t.is_finite(),
            None => true,
        };
        if is_style_finite(&style) && text_finite {
            self.can_allocate(icon_and_text_desired_size(text, &style))
        } else {
            false
        }
    }
}

} // verus!
