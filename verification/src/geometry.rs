//! Integer points, sizes and rectangles.
//!
//! A coordinate is *finite* when its magnitude is at most [`COORD_LIMIT`].
//! The limit leaves enough headroom in `i64` for the layout engine to add a
//! handful of finite values without overflow.

use vstd::prelude::*;

verus! {

/// The largest magnitude of a finite coordinate or length.
pub const COORD_LIMIT: i64 = 0x1000_0000_0000_0000;

/// The largest extent of a rectangle with finite corners.
pub const SIZE_LIMIT: i64 = 0x2000_0000_0000_0000;

/// The length that stands for "unbounded": larger than every finite length.
pub const INFINITY: i64 = i64::MAX;

/// Whether `v` lies within the finite coordinate range.
pub open spec fn finite(v: int) -> bool {
    -COORD_LIMIT <= v <= COORD_LIMIT
}

/// The larger of two lengths.
pub open spec fn max_of(a: i64, b: i64) -> i64 {
    if a >= b {
        a
    } else {
        b
    }
}

/// The smaller of two lengths.
pub open spec fn min_of(a: i64, b: i64) -> i64 {
    if a <= b {
        a
    } else {
        b
    }
}

/// The larger of two integers.
pub open spec fn max_int(a: int, b: int) -> int {
    if a >= b {
        a
    } else {
        b
    }
}

/// The smaller of two integers.
pub open spec fn min_int(a: int, b: int) -> int {
    if a <= b {
        a
    } else {
        b
    }
}

/// Half of `d`, rounded towards negative infinity.
pub open spec fn half(d: int) -> int {
    d / 2
}

/// Computes the larger of `a` and `b`.
pub fn at_least(a: i64, b: i64) -> (r: i64)
    ensures
        r == max_of(a, b),
{
    if a >= b {
        a
    } else {
        b
    }
}

/// Computes the smaller of `a` and `b`.
pub fn at_most(a: i64, b: i64) -> (r: i64)
    ensures
        r == min_of(a, b),
{
    if a <= b {
        a
    } else {
        b
    }
}

/// Computes whether `v` lies within the finite coordinate range.
pub fn is_finite(v: i64) -> (r: bool)
    ensures
        r == finite(v as int),
{
    -COORD_LIMIT <= v && v <= COORD_LIMIT
}

/// Computes half of `d`, rounded towards negative infinity.
pub fn half_floor(d: i64) -> (r: i64)
    ensures
        r == half(d as int),
{
    if d >= 0 {
        d / 2
    } else if d == i64::MIN {
        i64::MIN / 2
    } else {
        let n: i64 = -d;
        -(n / 2 + n % 2)
    }
}

/// A size or an offset: a horizontal and a vertical length.
#[derive(Clone, Copy, Debug, PartialEq, Eq, Structural)]
pub struct Vec2 {
    pub x: i64,
    pub y: i64,
}

/// A position.
#[derive(Clone, Copy, Debug, PartialEq, Eq, Structural)]
pub struct Pos2 {
    pub x: i64,
    pub y: i64,
}

/// An axis-aligned rectangle, given by its top-left and bottom-right corners.
#[derive(Clone, Copy, Debug, PartialEq, Eq, Structural)]
pub struct Rect {
    pub min: Pos2,
    pub max: Pos2,
}

impl Vec2 {
    /// Both components are finite.
    pub open spec fn finite(self) -> bool {
        finite(self.x as int) && finite(self.y as int)
    }

    /// The component-wise maximum of two sizes.
    pub open spec fn spec_max(self, other: Vec2) -> Vec2 {
        Vec2 { x: max_of(self.x, other.x), y: max_of(self.y, other.y) }
    }

    /// The size `x` wide and `y` high.
    pub fn new(x: i64, y: i64) -> (r: Vec2)
        ensures
            r == (Vec2 { x, y }),
    {
        Vec2 { x, y }
    }

    /// Computes whether both components are finite.
    pub fn is_finite(&self) -> (r: bool)
        ensures
            r == self.finite(),
    {
        is_finite(self.x) && is_finite(self.y)
    }

    /// Computes the component-wise maximum of two sizes.
    pub fn max(self, other: Vec2) -> (r: Vec2)
        ensures
            r == self.spec_max(other),
    {
        Vec2 { x: at_least(self.x, other.x), y: at_least(self.y, other.y) }
    }
}

impl Pos2 {
    /// Both coordinates are finite.
    pub open spec fn finite(self) -> bool {
        finite(self.x as int) && finite(self.y as int)
    }

    /// The position `x` from the left and `y` from the top.
    pub fn new(x: i64, y: i64) -> (r: Pos2)
        ensures
            r == (Pos2 { x, y }),
    {
        Pos2 { x, y }
    }

    /// Computes whether both coordinates are finite.
    pub fn is_finite(&self) -> (r: bool)
        ensures
            r == self.finite(),
    {
        is_finite(self.x) && is_finite(self.y)
    }
}

impl Rect {
    /// Both corners are finite.
    pub open spec fn finite(self) -> bool {
        self.min.finite() && self.max.finite()
    }

    /// The horizontal extent, negative when the corners are crossed.
    pub open spec fn spec_width(self) -> int {
        self.max.x - self.min.x
    }

    /// The vertical extent, negative when the corners are crossed.
    pub open spec fn spec_height(self) -> int {
        self.max.y - self.min.y
    }

    /// The extent as a size. It is exact where both corners are finite.
    pub open spec fn spec_size(self) -> Vec2 {
        Vec2 { x: (self.max.x - self.min.x) as i64, y: (self.max.y - self.min.y) as i64 }
    }

    /// The rectangle whose top-left corner is `min` and whose extent is `size`.
    pub open spec fn spec_from_min_size(min: Pos2, size: Vec2) -> Rect {
        Rect { min, max: Pos2 { x: (min.x + size.x) as i64, y: (min.y + size.y) as i64 } }
    }

    /// The overlap of two rectangles: the larger of the two top-left corners
    /// and the smaller of the two bottom-right corners, coordinate by
    /// coordinate. Its corners are crossed where the two do not overlap.
    pub open spec fn spec_intersect(self, other: Rect) -> Rect {
        Rect {
            min: Pos2 { x: max_of(self.min.x, other.min.x), y: max_of(self.min.y, other.min.y) },
            max: Pos2 { x: min_of(self.max.x, other.max.x), y: min_of(self.max.y, other.max.y) },
        }
    }

    /// The rectangle grown by `amount.x` on its left and right and by
    /// `amount.y` on its top and bottom.
    pub open spec fn spec_expand2(self, amount: Vec2) -> Rect {
        Rect {
            min: Pos2 { x: (self.min.x - amount.x) as i64, y: (self.min.y - amount.y) as i64 },
            max: Pos2 { x: (self.max.x + amount.x) as i64, y: (self.max.y + amount.y) as i64 },
        }
    }

    /// The rectangle between the corners `min` and `max`.
    pub fn from_min_max(min: Pos2, max: Pos2) -> (r: Rect)
        ensures
            r == (Rect { min, max }),
    {
        Rect { min, max }
    }

    /// Builds the rectangle whose top-left corner is `min` and whose extent is
    /// `size`.
    pub fn from_min_size(min: Pos2, size: Vec2) -> (r: Rect)
        requires
            i64::MIN <= min.x + size.x <= i64::MAX,
            i64::MIN <= min.y + size.y <= i64::MAX,
        ensures
            r == Rect::spec_from_min_size(min, size),
            r.min == min,
            r.spec_width() == size.x,
            r.spec_height() == size.y,
    {
        Rect { min, max: Pos2 { x: min.x + size.x, y: min.y + size.y } }
    }

    /// Computes whether both corners are finite.
    pub fn is_finite(&self) -> (r: bool)
        ensures
            r == self.finite(),
    {
        self.min.is_finite() && self.max.is_finite()
    }

    /// The left edge.
    pub fn left(&self) -> (r: i64)
        ensures
            r == self.min.x,
    {
        self.min.x
    }

    /// The right edge.
    pub fn right(&self) -> (r: i64)
        ensures
            r == self.max.x,
    {
        self.max.x
    }

    /// The top edge.
    pub fn top(&self) -> (r: i64)
        ensures
            r == self.min.y,
    {
        self.min.y
    }

    /// The bottom edge.
    pub fn bottom(&self) -> (r: i64)
        ensures
            r == self.max.y,
    {
        self.max.y
    }

    /// Computes the horizontal extent.
    pub fn width(&self) -> (r: i64)
        requires
            i64::MIN <= self.spec_width() <= i64::MAX,
        ensures
            r == self.spec_width(),
    {
        self.max.x - self.min.x
    }

    /// Computes the vertical extent.
    pub fn height(&self) -> (r: i64)
        requires
            i64::MIN <= self.spec_height() <= i64::MAX,
        ensures
            r == self.spec_height(),
    {
        self.max.y - self.min.y
    }

    /// Computes the extent as a size.
    pub fn size(&self) -> (r: Vec2)
        requires
            i64::MIN <= self.spec_width() <= i64::MAX,
            i64::MIN <= self.spec_height() <= i64::MAX,
        ensures
            r == self.spec_size(),
            r.x == self.spec_width(),
            r.y == self.spec_height(),
    {
        Vec2 { x: self.max.x - self.min.x, y: self.max.y - self.min.y }
    }

    /// The smallest rectangle that holds both rectangles.
    pub open spec fn spec_union(self, other: Rect) -> Rect {
        Rect {
            min: Pos2 { x: min_of(self.min.x, other.min.x), y: min_of(self.min.y, other.min.y) },
            max: Pos2 { x: max_of(self.max.x, other.max.x), y: max_of(self.max.y, other.max.y) },
        }
    }

    /// The point half way between the corners, each coordinate rounded
    /// towards negative infinity.
    pub open spec fn spec_center(self) -> Pos2 {
        Pos2 {
            x: half(self.min.x + self.max.x) as i64,
            y: half(self.min.y + self.max.y) as i64,
        }
    }

    /// The rectangle moved by `offset`.
    pub open spec fn spec_translate(self, offset: Vec2) -> Rect {
        Rect {
            min: Pos2 { x: (self.min.x + offset.x) as i64, y: (self.min.y + offset.y) as i64 },
            max: Pos2 { x: (self.max.x + offset.x) as i64, y: (self.max.y + offset.y) as i64 },
        }
    }

    /// Computes the smallest rectangle that holds both rectangles.
    pub fn union(self, other: Rect) -> (r: Rect)
        ensures
            r == self.spec_union(other),
    {
        Rect {
            min: Pos2 { x: at_most(self.min.x, other.min.x), y: at_most(self.min.y, other.min.y) },
            max: Pos2 { x: at_least(self.max.x, other.max.x), y: at_least(self.max.y, other.max.y) },
        }
    }

    /// Computes the point half way between the corners.
    pub fn center(&self) -> (r: Pos2)
        requires
            i64::MIN <= self.min.x + self.max.x <= i64::MAX,
            i64::MIN <= self.min.y + self.max.y <= i64::MAX,
        ensures
            r == self.spec_center(),
    {
        Pos2 { x: half_floor(self.min.x + self.max.x), y: half_floor(self.min.y + self.max.y) }
    }

    /// Moves the rectangle by `offset`.
    pub fn translate(self, offset: Vec2) -> (r: Rect)
        requires
            i64::MIN <= self.min.x + offset.x <= i64::MAX,
            i64::MIN <= self.min.y + offset.y <= i64::MAX,
            i64::MIN <= self.max.x + offset.x <= i64::MAX,
            i64::MIN <= self.max.y + offset.y <= i64::MAX,
        ensures
            r == self.spec_translate(offset),
    {
        Rect {
            min: Pos2 { x: self.min.x + offset.x, y: self.min.y + offset.y },
            max: Pos2 { x: self.max.x + offset.x, y: self.max.y + offset.y },
        }
    }

    /// The top-left corner.
    pub fn left_top(&self) -> (r: Pos2)
        ensures
            r == self.min,
    {
        self.min
    }

    /// The top-right corner.
    pub fn right_top(&self) -> (r: Pos2)
        ensures
            r == (Pos2 { x: self.max.x, y: self.min.y }),
    {
        Pos2 { x: self.max.x, y: self.min.y }
    }

    /// Computes the middle of the top edge.
    pub fn center_top(&self) -> (r: Pos2)
        requires
            i64::MIN <= self.min.x + self.max.x <= i64::MAX,
        ensures
            r == (Pos2 { x: self.spec_center().x, y: self.min.y }),
    {
        Pos2 { x: half_floor(self.min.x + self.max.x), y: self.min.y }
    }

    /// Computes the overlap of two rectangles.
    pub fn intersect(self, other: Rect) -> (r: Rect)
        ensures
            r == self.spec_intersect(other),
    {
        Rect {
            min: Pos2 { x: at_least(self.min.x, other.min.x), y: at_least(self.min.y, other.min.y) },
            max: Pos2 { x: at_most(self.max.x, other.max.x), y: at_most(self.max.y, other.max.y) },
        }
    }

    /// Grows the rectangle by `amount.x` on its left and right and by
    /// `amount.y` on its top and bottom.
    pub fn expand2(self, amount: Vec2) -> (r: Rect)
        requires
            i64::MIN <= self.min.x - amount.x <= i64::MAX,
            i64::MIN <= self.min.y - amount.y <= i64::MAX,
            i64::MIN <= self.max.x + amount.x <= i64::MAX,
            i64::MIN <= self.max.y + amount.y <= i64::MAX,
        ensures
            r == self.spec_expand2(amount),
    {
        Rect {
            min: Pos2 { x: self.min.x - amount.x, y: self.min.y - amount.y },
            max: Pos2 { x: self.max.x + amount.x, y: self.max.y + amount.y },
        }
    }
}

} // verus!
