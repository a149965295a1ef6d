//! Element spacing
//!
//! `ElementSpacing` changes the distance of objects along the layout orientation.
//! With `Tight` objects are placed right next to each other; with `FixedMargin`
//! a fixed gap (possibly negative) separates neighbours.
use vstd::prelude::*;

verus! {

/// A policy for the gaps between the objects of a linear layout.
pub trait ElementSpacing {
    /// The footprint of `objects` objects whose sizes add up to `measured_size`.
    spec fn spec_measurement(&self, measured_size: int, objects: int) -> int;

    /// The margin before the object at index `n`.
    spec fn spec_placement(&self, n: int, total_size: int) -> int;

    /// How much the total size of a layout changes by applying this spacing.
    fn modify_measurement(&self, measured_size: u32, objects: usize) -> (r: u32)
        requires
            0 <= self.spec_measurement(measured_size as int, objects as int) <= u32::MAX,
        ensures
            r == self.spec_measurement(measured_size as int, objects as int),
    ;

    /// The margin before the `n`th object.
    fn modify_placement(&self, n: usize, total_size: u32) -> (r: i32)
        requires
            i32::MIN <= self.spec_placement(n as int, total_size as int) <= i32::MAX,
        ensures
            r == self.spec_placement(n as int, total_size as int),
    ;
}

/// Lay out objects tightly.
#[derive(Clone, Copy, Debug, PartialEq, Eq, Structural)]
pub struct Tight;

impl ElementSpacing for Tight {
    open spec fn spec_measurement(&self, measured_size: int, objects: int) -> int {
        measured_size
    }

    open spec fn spec_placement(&self, n: int, total_size: int) -> int {
        0
    }

    fn modify_measurement(&self, measured_size: u32, _objects: usize) -> (r: u32) {
        measured_size
    }

    fn modify_placement(&self, _n: usize, _total_size: u32) -> (r: i32) {
        0
    }
}

/// Lay out objects with a fixed margin between them.
///
/// The margin can be negative, in which case the elements overlap.
#[derive(Clone, Copy, Debug, PartialEq, Eq, Structural)]
pub struct FixedMargin(pub i32);

impl ElementSpacing for FixedMargin {
    open spec fn spec_measurement(&self, measured_size: int, objects: int) -> int {
        if objects == 0 {
            measured_size
        } else {
            measured_size + self.0 * (objects - 1)
        }
    }

    open spec fn spec_placement(&self, n: int, total_size: int) -> int {
        if n == 0 {
            0
        } else {
            self.0 as int
        }
    }

    fn modify_measurement(&self, measured_size: u32, objects: usize) -> (r: u32) {
        if objects == 0 {
            measured_size
        } else {
            let gaps: i128 = (objects - 1) as i128;
            let gap: i128 = self.0 as i128;
            proof {
                assert(-0x8000_0000_0000_0000_0000_0000 <= gaps * gap <= 0x8000_0000_0000_0000_0000_0000)
                    by (nonlinear_arith)
                    requires
                        0 <= gaps <= 0x1_0000_0000_0000_0000,
                        -0x8000_0000 <= gap <= 0x8000_0000,
                ;
                assert(gaps * gap == self.0 * (objects - 1)) by (nonlinear_arith)
                    requires
                        gaps == objects - 1,
                        gap == self.0,
                ;
            }
            (measured_size as i128 + gaps * gap) as u32
        }
    }

    fn modify_placement(&self, n: usize, _total_size: u32) -> (r: i32) {
        if n == 0 {
            0
        } else {
            self.0
        }
    }
}

/// With no objects there is no gap: the measured size comes back unchanged.
pub proof fn lemma_no_objects_no_gap(spacing: FixedMargin, measured_size: u32)
    ensures
        spacing.spec_measurement(measured_size as int, 0) == measured_size,
{
}

/// The first object gets no margin; every later one gets the fixed gap.
pub proof fn lemma_margin_before_later_objects(spacing: FixedMargin, n: usize, total_size: u32)
    ensures
        n == 0 ==> spacing.spec_placement(n as int, total_size as int) == 0,
        n > 0 ==> spacing.spec_placement(n as int, total_size as int) == spacing.0,
{
}

} // verus!
