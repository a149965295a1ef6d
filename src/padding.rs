use vstd::prelude::*;

use crate::geometry::{clamp_i32, is_i32, Point, Rectangle};
use crate::{ContainsPoint, View};

verus! {

/// `rect` grown outwards by the given margins (shrunk where a margin is
/// negative). Each edge saturates at the ends of the `i32` range, and an edge
/// moved past its opposite one leaves a zero extent.
pub open spec fn padded(rect: Rectangle, top: int, right: int, bottom: int, left: int) -> Rectangle {
    Rectangle::spec_from_edges(
        clamp_i32(rect.top_left.x - left),
        clamp_i32(rect.top_left.y - top),
        clamp_i32(rect.far_x() + right),
        clamp_i32(rect.far_y() + bottom),
    )
}

/// `v + d`, saturated into the `i32` range.
fn saturating_shift(v: i32, d: i64) -> (r: i32)
    requires
        -0x1_0000_0000 <= d <= 0x1_0000_0000,
    ensures
        r == clamp_i32(v + d),
{
    let s: i64 = v as i64 + d;
    if s < i32::MIN as i64 {
        i32::MIN
    } else if s > i32::MAX as i64 {
        i32::MAX
    } else {
        s as i32
    }
}

fn rect_with_padding(rect: Rectangle, top: i32, right: i32, bottom: i32, left: i32) -> (r: Rectangle)
    requires
        rect.corner_fits(),
    ensures
        r == padded(rect, top as int, right as int, bottom as int, left as int),
{
    let far = rect.far_corner();
    let final_top = saturating_shift(rect.top_left.y, -(top as i64));
    let final_right = saturating_shift(far.x, right as i64);
    let final_bottom = saturating_shift(far.y, bottom as i64);
    let final_left = saturating_shift(rect.top_left.x, -(left as i64));
    Rectangle::from_edges(final_left, final_top, final_right, final_bottom)
}

/// A view whose measured extent is grown (or shrunk) by a margin on each
/// edge; how it draws is left to the child.
#[derive(Clone, Copy, Debug, PartialEq, Eq, Hash, Default)]
pub struct Padding<C> {
    top: i32,
    right: i32,
    bottom: i32,
    left: i32,
    child: C,
}

impl<C> Padding<C> {
    pub closed spec fn spec_top(self) -> i32 {
        self.top
    }

    pub closed spec fn spec_right(self) -> i32 {
        self.right
    }

    pub closed spec fn spec_bottom(self) -> i32 {
        self.bottom
    }

    pub closed spec fn spec_left(self) -> i32 {
        self.left
    }

    pub closed spec fn spec_child(self) -> C {
        self.child
    }

    /// The padded view with the given margins.
    pub closed spec fn spec_each(top: i32, right: i32, bottom: i32, left: i32, child: C) -> Self {
        Padding { top, right, bottom, left, child }
    }

    /// The margins and the child are what was given.
    pub open spec fn holds(self, top: i32, right: i32, bottom: i32, left: i32, child: C) -> bool {
        &&& self == Padding::spec_each(top, right, bottom, left, child)
        &&& self.spec_top() == top
        &&& self.spec_right() == right
        &&& self.spec_bottom() == bottom
        &&& self.spec_left() == left
        &&& self.spec_child() == child
    }

    /// No margin at all.
    pub fn zero(child: C) -> (r: Self)
        ensures
            r.holds(0, 0, 0, 0, child),
    {
        Padding { top: 0, right: 0, bottom: 0, left: 0, child }
    }

    /// The same margin on the left and on the right.
    pub fn horizontal(padding: i32, child: C) -> (r: Self)
        ensures
            r.holds(0, padding, 0, padding, child),
    {
        Padding { top: 0, right: padding, bottom: 0, left: padding, child }
    }

    /// The same margin on the top and on the bottom.
    pub fn vertical(padding: i32, child: C) -> (r: Self)
        ensures
            r.holds(padding, 0, padding, 0, child),
    {
        Padding { top: padding, right: 0, bottom: padding, left: 0, child }
    }

    /// `v` on the top and bottom, `h` on the left and right.
    pub fn vertical_and_horizontal(v: i32, h: i32, child: C) -> (r: Self)
        ensures
            r.holds(v, h, v, h, child),
    {
        Padding { top: v, right: h, bottom: v, left: h, child }
    }

    /// The same margin on all four edges.
    pub fn all(padding: i32, child: C) -> (r: Self)
        ensures
            r.holds(padding, padding, padding, padding, child),
    {
        Padding { top: padding, right: padding, bottom: padding, left: padding, child }
    }

    /// A margin of its own on each edge.
    pub fn each(top: i32, right: i32, bottom: i32, left: i32, child: C) -> (r: Self)
        ensures
            r.holds(top, right, bottom, left, child),
    {
        Padding { top, right, bottom, left, child }
    }
}

impl<C: View> View for Padding<C> {
    open spec fn bounds(&self) -> Rectangle {
        padded(
            self.spec_child().bounds(),
            self.spec_top() as int,
            self.spec_right() as int,
            self.spec_bottom() as int,
            self.spec_left() as int,
        )
    }

    open spec fn bounds_defined(&self) -> bool {
        self.spec_child().bounds_defined() && self.spec_child().bounds().corner_fits()
    }

    open spec fn can_translate(&self, by: Point) -> bool {
        self.spec_child().can_translate(by)
    }

    open spec fn translated(&self, by: Point) -> Self {
        Padding::spec_each(
            self.spec_top(),
            self.spec_right(),
            self.spec_bottom(),
            self.spec_left(),
            self.spec_child().translated(by),
        )
    }

    fn bounding_box(&self) -> (r: Rectangle) {
        rect_with_padding(self.child.bounding_box(), self.top, self.right, self.bottom, self.left)
    }

    fn translate(&self, by: Point) -> (r: Self) {
        Padding {
            top: self.top,
            right: self.right,
            bottom: self.bottom,
            left: self.left,
            child: self.child.translate(by),
        }
    }

    fn translate_mut(&mut self, by: Point) -> (r: &mut Self) {
        self.child.translate_mut(by);
        self
    }
}

impl<C: ContainsPoint> ContainsPoint for Padding<C> {
    open spec fn spec_contains(&self, p: Point) -> bool {
        self.spec_child().spec_contains(p)
    }

    fn contains(&self, p: Point) -> (r: bool) {
        self.child.contains(p)
    }
}

/// A padded view holds the margins and the child it was made with.
pub broadcast proof fn lemma_parts_of_each<C>(top: i32, right: i32, bottom: i32, left: i32, child: C)
    ensures
        #[trigger] Padding::spec_each(top, right, bottom, left, child).holds(top, right, bottom, left, child),
{
}

/// Moving a padded view moves its child and keeps every margin.
pub proof fn lemma_translate_keeps_margins<C: View>(p: Padding<C>, by: Point)
    ensures
        p.translated(by).holds(
            p.spec_top(),
            p.spec_right(),
            p.spec_bottom(),
            p.spec_left(),
            p.spec_child().translated(by),
        ),
{
}

/// Padding a rectangle by `n` on every edge and the result by `-n` gives
/// back the rectangle, wherever no edge crosses its opposite one on the way
/// and no coordinate saturates. A degenerate rectangle is left out: padding
/// measures it from a single pixel, so it comes back one pixel wide and high.
pub proof fn lemma_padding_round_trip(rect: Rectangle, n: i32)
    requires
        n > i32::MIN,
        !rect.is_degenerate(),
        rect.corner_fits(),
        is_i32(rect.top_left.x - n),
        is_i32(rect.top_left.y - n),
        is_i32(rect.far_x() + n),
        is_i32(rect.far_y() + n),
        1 <= rect.size.width + n + n <= u32::MAX,
        1 <= rect.size.height + n + n <= u32::MAX,
    ensures
        padded(padded(rect, n as int, n as int, n as int, n as int), -n, -n, -n, -n) == rect,
        Padding::spec_each(
            (-n) as i32,
            (-n) as i32,
            (-n) as i32,
            (-n) as i32,
            Padding::spec_each(n, n, n, n, rect),
        ).bounds() == rect,
{
    let p = padded(rect, n as int, n as int, n as int, n as int);
    assert(p.top_left.x == rect.top_left.x - n);
    assert(p.size.width == rect.size.width + n + n);
    assert(p.far_x() == rect.far_x() + n);
    assert(p.far_y() == rect.far_y() + n);
}

} // verus!
