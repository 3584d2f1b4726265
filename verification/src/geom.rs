//! Integer geometry for layout: points, sizes, rectangles and edge
//! offsets, in layout units. Coordinates grow rightward and downward.

use vstd::prelude::*;

verus! {

/// The largest magnitude a caller-supplied coordinate may have. Keeping
/// input rectangles within this bound leaves ample headroom for the sums
/// the layout pass forms.
pub const MAX_COORD: i64 = 0x4000_0000_0000;

/// A position in layout units.
#[derive(Clone, Copy, Debug, PartialEq, Eq, Structural)]
pub struct Point {
    pub x: i64,
    pub y: i64,
}

impl Point {
    pub fn new(x: i64, y: i64) -> (p: Point)
        ensures
            p == (Point { x, y }),
    {
        Point { x, y }
    }

    pub fn zero() -> (p: Point)
        ensures
            p == (Point { x: 0, y: 0 }),
    {
        Point { x: 0, y: 0 }
    }
}

/// An extent in layout units.
#[derive(Clone, Copy, Debug, PartialEq, Eq, Structural)]
pub struct Size {
    pub width: i64,
    pub height: i64,
}

impl Size {
    pub fn new(width: i64, height: i64) -> (s: Size)
        ensures
            s == (Size { width, height }),
    {
        Size { width, height }
    }
}

/// Non-negative distances from the four edges of a box, in layout units;
/// used for margins.
#[derive(Clone, Copy, Debug, PartialEq, Eq, Structural)]
pub struct SideOffsets {
    pub top: u32,
    pub right: u32,
    pub bottom: u32,
    pub left: u32,
}

impl SideOffsets {
    pub fn new(top: u32, right: u32, bottom: u32, left: u32) -> (s: SideOffsets)
        ensures
            s == (SideOffsets { top, right, bottom, left }),
    {
        SideOffsets { top, right, bottom, left }
    }

    pub fn zero() -> (s: SideOffsets)
        ensures
            s == (SideOffsets { top: 0, right: 0, bottom: 0, left: 0 }),
    {
        SideOffsets { top: 0, right: 0, bottom: 0, left: 0 }
    }

    /// The sum of the left and right offsets.
    pub open spec fn spec_horizontal(&self) -> int {
        self.left + self.right
    }

    /// The sum of the top and bottom offsets.
    pub open spec fn spec_vertical(&self) -> int {
        self.top + self.bottom
    }

    pub fn horizontal(&self) -> (r: i64)
        ensures
            r == self.spec_horizontal(),
    {
        self.left as i64 + self.right as i64
    }

    pub fn vertical(&self) -> (r: i64)
        ensures
            r == self.spec_vertical(),
    {
        self.top as i64 + self.bottom as i64
    }
}

/// An axis-aligned rectangle: a top-left origin plus a size.
#[derive(Clone, Copy, Debug, PartialEq, Eq, Structural)]
pub struct Rect {
    pub origin: Point,
    pub size: Size,
}

impl Rect {
    pub fn new(origin: Point, size: Size) -> (r: Rect)
        ensures
            r == (Rect { origin, size }),
    {
        Rect { origin, size }
    }

    /// The rectangle's coordinates are small enough that the layout
    /// pass's arithmetic on them cannot overflow.
    pub open spec fn in_bounds(&self) -> bool {
        &&& -MAX_COORD <= self.origin.x <= MAX_COORD
        &&& -MAX_COORD <= self.origin.y <= MAX_COORD
        &&& -MAX_COORD <= self.size.width <= MAX_COORD
        &&& -MAX_COORD <= self.size.height <= MAX_COORD
    }

    /// Whether the rectangle's coordinates are within the layout
    /// engine's range.
    pub fn check_in_bounds(&self) -> (r: bool)
        ensures
            r == self.in_bounds(),
    {
        -MAX_COORD <= self.origin.x && self.origin.x <= MAX_COORD && -MAX_COORD <= self.origin.y
            && self.origin.y <= MAX_COORD && -MAX_COORD <= self.size.width && self.size.width
            <= MAX_COORD && -MAX_COORD <= self.size.height && self.size.height <= MAX_COORD
    }

    /// The rectangle that remains after the given offsets are taken from
    /// each edge, as a mathematical value.
    pub open spec fn spec_inner_rect(&self, offsets: SideOffsets) -> Rect {
        Rect {
            origin: Point {
                x: (self.origin.x + offsets.left) as i64,
                y: (self.origin.y + offsets.top) as i64,
            },
            size: Size {
                width: (self.size.width - offsets.spec_horizontal()) as i64,
                height: (self.size.height - offsets.spec_vertical()) as i64,
            },
        }
    }

    /// Shrinks the rectangle by the given edge offsets.
    pub fn inner_rect(&self, offsets: SideOffsets) -> (r: Rect)
        requires
            self.in_bounds(),
        ensures
            r == self.spec_inner_rect(offsets),
    {
        Rect {
            origin: Point {
                x: self.origin.x + offsets.left as i64,
                y: self.origin.y + offsets.top as i64,
            },
            size: Size {
                width: self.size.width - offsets.horizontal(),
                height: self.size.height - offsets.vertical(),
            },
        }
    }

    /// The y coordinate of the rectangle's bottom edge.
    pub open spec fn spec_max_y(&self) -> int {
        self.origin.y + self.size.height
    }
}

} // verus!
