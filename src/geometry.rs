use vstd::prelude::*;

verus! {

/// Largest magnitude of a layout coordinate.
pub const COORD_LIMIT: i64 = 0x1000_0000_0000_0000;

/// Largest extent, spacing or margin accepted by the layout functions.
pub const EXTENT_LIMIT: i64 = 0x100_0000_0000;

pub open spec fn fits_i64(v: int) -> bool {
    i64::MIN <= v <= i64::MAX
}

pub open spec fn max_int(a: int, b: int) -> int {
    if a >= b { a } else { b }
}

pub open spec fn is_coord(v: int) -> bool {
    -COORD_LIMIT <= v <= COORD_LIMIT
}

pub open spec fn is_extent(v: int) -> bool {
    0 <= v <= EXTENT_LIMIT
}

/// A point.
#[derive(Clone, Copy, Debug, PartialEq, Eq, Structural)]
pub struct Pos2 {
    pub x: i64,
    pub y: i64,
}

/// A displacement or a size.
#[derive(Clone, Copy, Debug, PartialEq, Eq, Structural)]
pub struct Vec2 {
    pub x: i64,
    pub y: i64,
}

/// An axis-aligned rectangle between two corners.
#[derive(Clone, Copy, Debug, PartialEq, Eq, Structural)]
pub struct Rect {
    pub min: Pos2,
    pub max: Pos2,
}

/// Widths of the four sides of a frame.
#[derive(Clone, Copy, Debug, PartialEq, Eq, Structural)]
pub struct Margin {
    pub left: i64,
    pub right: i64,
    pub top: i64,
    pub bottom: i64,
}

/// The spacing parameters of the theme that layout reads.
#[derive(Clone, Copy, Debug, PartialEq, Eq, Structural)]
pub struct Spacing {
    /// Gap between neighbouring items.
    pub item_spacing: Vec2,
    /// Standard size of an interactive control.
    pub interact_size: Vec2,
}

impl Pos2 {
    pub open spec fn is_coord(self) -> bool {
        is_coord(self.x as int) && is_coord(self.y as int)
    }
}

impl Vec2 {
    pub open spec fn is_extent(self) -> bool {
        is_extent(self.x as int) && is_extent(self.y as int)
    }
}

impl Rect {
    pub open spec fn spec_from_min_size(min: Pos2, size: Vec2) -> Rect {
        Rect {
            min,
            max: Pos2 { x: (min.x + size.x) as i64, y: (min.y + size.y) as i64 },
        }
    }

    pub open spec fn width(self) -> int {
        self.max.x - self.min.x
    }

    pub open spec fn height(self) -> int {
        self.max.y - self.min.y
    }

    /// The rectangle with corner `min` and the given size.
    pub fn from_min_size(min: Pos2, size: Vec2) -> (r: Rect)
        requires
            fits_i64(min.x + size.x),
            fits_i64(min.y + size.y),
        ensures
            r == Rect::spec_from_min_size(min, size),
            r.max.x == min.x + size.x,
            r.max.y == min.y + size.y,
    {
        Rect { min, max: Pos2 { x: min.x + size.x, y: min.y + size.y } }
    }
}

} // verus!
