use vstd::prelude::*;

use crate::geometry::{max_int, min_int, Point, Rectangle};
use crate::{ContainsPoint, View};

verus! {

/// Two views of possibly different types, treated as one.
#[derive(Clone, Copy, Debug, PartialEq, Eq, Hash, Default)]
pub struct Component<A, B> {
    child_a: A,
    child_b: B,
}

/// The smallest rectangle covering both rectangles, where a degenerate
/// rectangle counts as its top-left corner at the far end.
pub open spec fn union(a: Rectangle, b: Rectangle) -> Rectangle {
    Rectangle::spec_from_edges(
        min_int(a.top_left.x as int, b.top_left.x as int),
        min_int(a.top_left.y as int, b.top_left.y as int),
        max_int(a.far_x(), b.far_x()),
        max_int(a.far_y(), b.far_y()),
    )
}

/// The smallest rectangle covering both rectangles (see `union`).
pub fn union_of(a: Rectangle, b: Rectangle) -> (r: Rectangle)
    requires
        a.corner_fits(),
        b.corner_fits(),
    ensures
        r == union(a, b),
{
    let top_left = a.top_left.component_min(b.top_left);
    let bottom_right = a.far_corner().component_max(b.far_corner());
    Rectangle::from_edges(top_left.x, top_left.y, bottom_right.x, bottom_right.y)
}

impl<A, B> Component<A, B> {
    /// The first child, drawn first.
    pub closed spec fn first(self) -> A {
        self.child_a
    }

    /// The second child, drawn second.
    pub closed spec fn second(self) -> B {
        self.child_b
    }

    /// The composite of the two given children.
    pub closed spec fn spec_new(child_a: A, child_b: B) -> Self {
        Component { child_a, child_b }
    }

    pub fn new(child_a: A, child_b: B) -> (r: Self)
        ensures
            r == Component::spec_new(child_a, child_b),
            r.first() == child_a,
            r.second() == child_b,
    {
        Component { child_a, child_b }
    }
}

impl<A: View, B: View> View for Component<A, B> {
    open spec fn bounds(&self) -> Rectangle {
        union(self.first().bounds(), self.second().bounds())
    }

    open spec fn bounds_defined(&self) -> bool {
        &&& self.first().bounds_defined()
        &&& self.second().bounds_defined()
        &&& self.first().bounds().corner_fits()
        &&& self.second().bounds().corner_fits()
    }

    open spec fn can_translate(&self, by: Point) -> bool {
        self.first().can_translate(by) && self.second().can_translate(by)
    }

    open spec fn translated(&self, by: Point) -> Self {
        Component::spec_new(self.first().translated(by), self.second().translated(by))
    }

    fn bounding_box(&self) -> (r: Rectangle) {
        let bb_a = self.child_a.bounding_box();
        let bb_b = self.child_b.bounding_box();
        union_of(bb_a, bb_b)
    }

    fn translate(&self, by: Point) -> (r: Self) {
        Component { child_a: self.child_a.translate(by), child_b: self.child_b.translate(by) }
    }

    fn translate_mut(&mut self, by: Point) -> (r: &mut Self) {
        self.child_a.translate_mut(by);
        self.child_b.translate_mut(by);
        self
    }
}

impl<A: ContainsPoint, B: ContainsPoint> ContainsPoint for Component<A, B> {
    open spec fn spec_contains(&self, p: Point) -> bool {
        self.first().spec_contains(p) || self.second().spec_contains(p)
    }

    fn contains(&self, p: Point) -> (r: bool) {
        self.child_a.contains(p) || self.child_b.contains(p)
    }
}

/// The children of a composite are the ones it was made of.
pub broadcast proof fn lemma_children_of_new<A, B>(child_a: A, child_b: B)
    ensures
        #[trigger] Component::spec_new(child_a, child_b).first() == child_a,
        Component::spec_new(child_a, child_b).second() == child_b,
{
}

/// Moving a composite moves each child by the same vector, and nothing else.
pub proof fn lemma_translate_distributes<A: View, B: View>(c: Component<A, B>, by: Point)
    ensures
        c.translated(by).first() == c.first().translated(by),
        c.translated(by).second() == c.second().translated(by),
{
}

/// The composite's bounding box starts at the component-wise minimum of the
/// children's top-left corners and ends at the component-wise maximum of
/// their bottom-right corners, a degenerate child counting with its top-left
/// corner there. It holds where the covered span fits in a width.
pub proof fn lemma_bounds_union<A: View, B: View>(c: Component<A, B>)
    requires
        c.bounds_defined(),
        max_int(c.first().bounds().far_x(), c.second().bounds().far_x()) - min_int(
            c.first().bounds().top_left.x as int,
            c.second().bounds().top_left.x as int,
        ) < u32::MAX,
        max_int(c.first().bounds().far_y(), c.second().bounds().far_y()) - min_int(
            c.first().bounds().top_left.y as int,
            c.second().bounds().top_left.y as int,
        ) < u32::MAX,
    ensures
        c.bounds().top_left.x == min_int(
            c.first().bounds().top_left.x as int,
            c.second().bounds().top_left.x as int,
        ),
        c.bounds().top_left.y == min_int(
            c.first().bounds().top_left.y as int,
            c.second().bounds().top_left.y as int,
        ),
        !c.bounds().is_degenerate(),
        c.bounds().far_x() == max_int(c.first().bounds().far_x(), c.second().bounds().far_x()),
        c.bounds().far_y() == max_int(c.first().bounds().far_y(), c.second().bounds().far_y()),
{
}

} // verus!
