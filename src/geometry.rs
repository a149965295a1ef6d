use vstd::prelude::*;

verus! {

/// A point on the pixel grid.
#[derive(Clone, Copy, Debug, PartialEq, Eq, Structural)]
pub struct Point {
    pub x: i32,
    pub y: i32,
}

/// The extent of a rectangle: never negative.
#[derive(Clone, Copy, Debug, PartialEq, Eq, Structural)]
pub struct Size {
    pub width: u32,
    pub height: u32,
}

/// An axis-aligned rectangle, given by its top-left corner and its size.
#[derive(Clone, Copy, Debug, PartialEq, Eq, Structural)]
pub struct Rectangle {
    pub top_left: Point,
    pub size: Size,
}

pub open spec fn is_i32(v: int) -> bool {
    i32::MIN <= v <= i32::MAX
}

/// The number of grid units from `lo` to `hi`, both included; zero when
/// `hi` lies before `lo`, and saturated at the largest width.
pub open spec fn span(lo: int, hi: int) -> int {
    if hi < lo {
        0
    } else if hi - lo + 1 > u32::MAX {
        u32::MAX as int
    } else {
        hi - lo + 1
    }
}

/// Saturates a mathematical value into the range of `i32`.
pub open spec fn clamp_i32(v: int) -> int {
    if v < i32::MIN {
        i32::MIN as int
    } else if v > i32::MAX {
        i32::MAX as int
    } else {
        v
    }
}

pub open spec fn min_int(a: int, b: int) -> int {
    if a <= b { a } else { b }
}

pub open spec fn max_int(a: int, b: int) -> int {
    if a >= b { a } else { b }
}

impl Point {
    pub fn new(x: i32, y: i32) -> (r: Point)
        ensures
            r.x == x,
            r.y == y,
    {
        Point { x, y }
    }

    pub fn zero() -> (r: Point)
        ensures
            r.x == 0,
            r.y == 0,
    {
        Point { x: 0, y: 0 }
    }

    /// The point moved by `by`, where both coordinates stay representable.
    pub open spec fn spec_add(self, by: Point) -> Point {
        Point { x: (self.x + by.x) as i32, y: (self.y + by.y) as i32 }
    }

    pub open spec fn can_add(self, by: Point) -> bool {
        is_i32(self.x + by.x) && is_i32(self.y + by.y)
    }

    pub fn add(self, by: Point) -> (r: Point)
        requires
            self.can_add(by),
        ensures
            r == self.spec_add(by),
            r.x == self.x + by.x,
            r.y == self.y + by.y,
    {
        Point { x: self.x + by.x, y: self.y + by.y }
    }

    /// The component-wise minimum of two points.
    pub fn component_min(self, other: Point) -> (r: Point)
        ensures
            r.x == min_int(self.x as int, other.x as int),
            r.y == min_int(self.y as int, other.y as int),
    {
        Point {
            x: if self.x <= other.x { self.x } else { other.x },
            y: if self.y <= other.y { self.y } else { other.y },
        }
    }

    /// The component-wise maximum of two points.
    pub fn component_max(self, other: Point) -> (r: Point)
        ensures
            r.x == max_int(self.x as int, other.x as int),
            r.y == max_int(self.y as int, other.y as int),
    {
        Point {
            x: if self.x >= other.x { self.x } else { other.x },
            y: if self.y >= other.y { self.y } else { other.y },
        }
    }
}

impl Size {
    pub fn new(width: u32, height: u32) -> (r: Size)
        ensures
            r.width == width,
            r.height == height,
    {
        Size { width, height }
    }

    pub fn zero() -> (r: Size)
        ensures
            r.width == 0,
            r.height == 0,
    {
        Size { width: 0, height: 0 }
    }
}

/// Number of grid units from `lo` to `hi` (see `span`).
fn span_of(lo: i32, hi: i32) -> (r: u32)
    ensures
        r == span(lo as int, hi as int),
{
    if hi < lo {
        0
    } else {
        let d: i64 = hi as i64 - lo as i64 + 1;
        if d > u32::MAX as i64 {
            u32::MAX
        } else {
            d as u32
        }
    }
}

impl Rectangle {
    pub fn new(top_left: Point, size: Size) -> (r: Rectangle)
        ensures
            r.top_left == top_left,
            r.size == size,
    {
        Rectangle { top_left, size }
    }

    pub fn zero() -> (r: Rectangle)
        ensures
            r.top_left == (Point { x: 0, y: 0 }),
            r.size == (Size { width: 0, height: 0 }),
    {
        Rectangle { top_left: Point::zero(), size: Size::zero() }
    }

    /// Zero width or zero height: such a rectangle has no bottom-right pixel.
    pub open spec fn is_degenerate(self) -> bool {
        self.size.width == 0 || self.size.height == 0
    }

    /// The x of the right-most column, or of the top-left corner when degenerate.
    pub open spec fn far_x(self) -> int {
        if self.is_degenerate() {
            self.top_left.x as int
        } else {
            self.top_left.x + self.size.width - 1
        }
    }

    /// The y of the bottom-most row, or of the top-left corner when degenerate.
    pub open spec fn far_y(self) -> int {
        if self.is_degenerate() {
            self.top_left.y as int
        } else {
            self.top_left.y + self.size.height - 1
        }
    }

    /// The far corner fits on the `i32` grid.
    pub open spec fn corner_fits(self) -> bool {
        is_i32(self.far_x()) && is_i32(self.far_y())
    }

    /// The rectangle whose edges are the given columns and rows, both included.
    /// An edge that lies past its opposite one gives a zero extent.
    pub open spec fn spec_from_edges(left: int, top: int, right: int, bottom: int) -> Rectangle {
        Rectangle {
            top_left: Point { x: left as i32, y: top as i32 },
            size: Size { width: span(left, right) as u32, height: span(top, bottom) as u32 },
        }
    }

    /// The smallest rectangle that covers both corners.
    pub open spec fn spec_with_corners(a: Point, b: Point) -> Rectangle {
        Rectangle::spec_from_edges(
            min_int(a.x as int, b.x as int),
            min_int(a.y as int, b.y as int),
            max_int(a.x as int, b.x as int),
            max_int(a.y as int, b.y as int),
        )
    }

    pub fn from_edges(left: i32, top: i32, right: i32, bottom: i32) -> (r: Rectangle)
        ensures
            r == Rectangle::spec_from_edges(left as int, top as int, right as int, bottom as int),
    {
        Rectangle {
            top_left: Point { x: left, y: top },
            size: Size { width: span_of(left, right), height: span_of(top, bottom) },
        }
    }

    /// The smallest rectangle that covers both corners; a span wider than the
    /// largest width is saturated.
    pub fn with_corners(a: Point, b: Point) -> (r: Rectangle)
        ensures
            r == Rectangle::spec_with_corners(a, b),
    {
        let tl = a.component_min(b);
        let br = a.component_max(b);
        Rectangle::from_edges(tl.x, tl.y, br.x, br.y)
    }

    /// The bottom-right pixel, absent for a degenerate rectangle.
    pub fn bottom_right(&self) -> (r: Option<Point>)
        requires
            self.corner_fits(),
        ensures
            self.is_degenerate() ==> r.is_none(),
            !self.is_degenerate() ==> r == Some(Point { x: self.far_x() as i32, y: self.far_y() as i32 }),
    {
        if self.size.width > 0 && self.size.height > 0 {
            let x: i64 = self.top_left.x as i64 + self.size.width as i64 - 1;
            let y: i64 = self.top_left.y as i64 + self.size.height as i64 - 1;
            Some(Point { x: x as i32, y: y as i32 })
        } else {
            None
        }
    }

    /// The bottom-right pixel, or the top-left corner for a degenerate rectangle.
    pub fn far_corner(&self) -> (r: Point)
        requires
            self.corner_fits(),
        ensures
            r.x == self.far_x(),
            r.y == self.far_y(),
    {
        match self.bottom_right() {
            Some(p) => p,
            None => self.top_left,
        }
    }

    /// Whether `p` is one of the rectangle's pixels.
    pub open spec fn has_pixel(self, p: Point) -> bool {
        &&& !self.is_degenerate()
        &&& self.top_left.x <= p.x <= self.far_x()
        &&& self.top_left.y <= p.y <= self.far_y()
    }

    pub fn contains_pixel(&self, p: Point) -> (r: bool)
        ensures
            r == self.has_pixel(p),
    {
        if self.size.width == 0 || self.size.height == 0 {
            false
        } else {
            let px: i64 = p.x as i64;
            let py: i64 = p.y as i64;
            let x0: i64 = self.top_left.x as i64;
            let y0: i64 = self.top_left.y as i64;
            x0 <= px && px <= x0 + self.size.width as i64 - 1 && y0 <= py && py <= y0
                + self.size.height as i64 - 1
        }
    }
}

} // verus!
