//! Frame-persisted grid layout for immediate-mode user interfaces.
//!
//! In an immediate-mode interface every widget is laid out again on every
//! frame, and a widget's size is known only after it has been drawn. A grid
//! needs its columns to be as wide as their widest cell and its rows as tall
//! as their tallest cell, which cannot be known in one pass. This crate holds
//! the layout negotiation that resolves this across frames: it remembers the
//! sizes measured on the previous frame, offers them as a prediction on the
//! current frame, accumulates what is measured now, and asks for a repaint
//! whenever the two disagree.
//!
//! - [`memory`] holds the sizes a grid remembers and the store that keeps
//!   them between frames;
//! - [`grid`] holds the engine that predicts, places, accumulates and
//!   commits;
//! - [`frames`] states what holds over whole frames and from frame to frame;
//! - [`placer`] joins the engine with the enclosing layout into the handle
//!   that widgets are placed through, and [`widgets`] sizes labels, buttons,
//!   check boxes and radio buttons for it;
//! - [`datepicker`] holds the rules of a date picker that is shown in a grid.
//!
//! All lengths are whole layout units held in `i64`.

pub mod datepicker;
pub mod frames;
pub mod geometry;
pub mod grid;
pub mod layout;
pub mod memory;
pub mod placer;
pub mod widgets;

pub use geometry::{Pos2, Rect, Vec2, COORD_LIMIT, INFINITY, SIZE_LIMIT};
pub use grid::{Grid, GridLayout, GridModel, OverflowMarks};
pub use layout::{Region, Style};
pub use memory::{Memory, MemoryStore, State};
pub use placer::{PlacerModel, WidgetPlacer};
pub use widgets::{
    Align, Button, Checkbox, Color32, Create, Galley, Image, Label, LaidOutButton, LaidOutCheckbox,
    LaidOutLabel, LaidOutRadioButton, RadioButton, Rounding, Sense, Stroke,
};
