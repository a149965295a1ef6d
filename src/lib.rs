//! Relative placement of rectangular views: alignment against a reference,
//! composition of views into one, padding, and spacing policies.
pub mod align;
pub mod component;
pub mod geometry;
pub mod layout;
pub mod padding;
pub mod prelude;

use vstd::prelude::*;

pub use geometry::{Point, Rectangle, Size};

verus! {

/// Anything with a bounding box that can be moved on the grid.
pub trait View: Sized {
    /// The bounding box, as the contracts see it.
    spec fn bounds(&self) -> Rectangle;

    /// The bounding box can be computed without leaving the `i32` grid.
    spec fn bounds_defined(&self) -> bool;

    /// Moving by `by` keeps every coordinate representable.
    spec fn can_translate(&self, by: Point) -> bool;

    /// The view moved by `by`.
    spec fn translated(&self, by: Point) -> Self;

    fn bounding_box(&self) -> (r: Rectangle)
        requires
            self.bounds_defined(),
        ensures
            r == self.bounds(),
    ;

    fn translate(&self, by: Point) -> (r: Self)
        requires
            self.can_translate(by),
        ensures
            r == self.translated(by),
    ;

    fn translate_mut(&mut self, by: Point) -> (r: &mut Self)
        requires
            old(self).can_translate(by),
        ensures
            *r == old(self).translated(by),
            *final(self) == *final(r),
    ;
}

/// Anything that can tell whether a point belongs to it.
pub trait ContainsPoint {
    spec fn spec_contains(&self, p: Point) -> bool;

    fn contains(&self, p: Point) -> (r: bool)
        ensures
            r == self.spec_contains(p),
    ;
}

impl ContainsPoint for Rectangle {
    open spec fn spec_contains(&self, p: Point) -> bool {
        self.has_pixel(p)
    }

    fn contains(&self, p: Point) -> (r: bool) {
        self.contains_pixel(p)
    }
}

impl View for Rectangle {
    open spec fn bounds(&self) -> Rectangle {
        *self
    }

    open spec fn bounds_defined(&self) -> bool {
        true
    }

    open spec fn can_translate(&self, by: Point) -> bool {
        self.top_left.can_add(by)
    }

    open spec fn translated(&self, by: Point) -> Rectangle {
        Rectangle { top_left: self.top_left.spec_add(by), size: self.size }
    }

    fn bounding_box(&self) -> (r: Rectangle) {
        *self
    }

    fn translate(&self, by: Point) -> (r: Rectangle) {
        Rectangle { top_left: self.top_left.add(by), size: self.size }
    }

    fn translate_mut(&mut self, by: Point) -> (r: &mut Rectangle) {
        self.top_left = self.top_left.add(by);
        self
    }
}

} // verus!
