//! What the grid takes from the layout that encloses it.

use crate::geometry::{Rect, Vec2};
use vstd::prelude::*;

verus! {

/// Where the enclosing layout stands: the space it has and where the next
/// widget goes.
#[derive(Clone, Copy, Debug, PartialEq, Eq, Structural)]
pub struct Region {
    /// The smallest rectangle that holds every widget placed so far.
    pub min_rect: Rect,
    /// The rectangle the layout may fill.
    pub max_rect: Rect,
    /// Where the next widget goes: its top-left corner is the insertion point.
    pub cursor: Rect,
}

/// What the layout reads of the host's style: the defaults for what a grid
/// or a widget leaves unset, and the debug switches.
#[derive(Clone, Copy, Debug)]
pub struct Style {
    /// The standard spacing between neighbouring items.
    pub item_spacing: Vec2,
    /// The standard size of an interactive widget.
    pub interact_size: Vec2,
    /// The padding between a button's edge and its content.
    pub button_padding: Vec2,
    /// The width and height of the icon of a checkbox or radio button.
    pub icon_width: i64,
    /// The space between an icon and the text beside it.
    pub icon_spacing: i64,
    /// Whether buttons have a frame unless they say otherwise.
    pub button_frame: bool,
    /// Whether text wraps, where the style decides it.
    pub wrap: Option<bool>,
    /// Whether grids are striped unless they say otherwise.
    pub striped: bool,
    /// Whether a screen reader is on.
    pub screen_reader: bool,
    /// Whether to mark cells that turned out wider than predicted.
    pub show_expand_width: bool,
    /// Whether to mark cells that turned out taller than predicted.
    pub show_expand_height: bool,
}

} // verus!
