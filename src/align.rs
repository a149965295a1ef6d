use vstd::prelude::*;

use crate::geometry::{is_i32, Point, Rectangle};
use crate::View;

verus! {

/// Where a view goes along one axis, relative to a reference extent.
#[derive(Clone, Copy, Debug, PartialEq, Eq, Structural)]
pub enum AlignmentPosition {
    /// Near edges coincide.
    Start,
    /// Midpoints coincide.
    Center,
    /// Far edges coincide.
    End,
    /// Entirely before the reference, abutting its near edge.
    Before,
    /// Entirely after the reference, abutting its far edge.
    After,
}

/// A position for each axis; `None` leaves that axis alone.
#[derive(Clone, Copy, Debug)]
pub struct Alignment {
    pub vertical: Option<AlignmentPosition>,
    pub horizontal: Option<AlignmentPosition>,
}

/// The offset along one axis that moves an extent starting at `t_lo` with
/// length `t_len` to `pos` relative to the extent `r_lo`, `r_len`.
pub open spec fn axis_offset(
    pos: Option<AlignmentPosition>,
    t_lo: int,
    t_len: int,
    r_lo: int,
    r_len: int,
) -> int {
    match pos {
        None => 0,
        Some(AlignmentPosition::Start) => r_lo - t_lo,
        Some(AlignmentPosition::Center) => (r_lo + r_len / 2) - (t_lo + t_len / 2),
        Some(AlignmentPosition::End) => (r_lo + r_len) - (t_lo + t_len),
        Some(AlignmentPosition::Before) => r_lo - (t_lo + t_len),
        Some(AlignmentPosition::After) => (r_lo + r_len) - t_lo,
    }
}

fn axis_offset_exec(pos: Option<AlignmentPosition>, t_lo: i32, t_len: u32, r_lo: i32, r_len: u32) -> (r: i64)
    ensures
        r == axis_offset(pos, t_lo as int, t_len as int, r_lo as int, r_len as int),
{
    let tl: i64 = t_lo as i64;
    let tn: i64 = t_len as i64;
    let rl: i64 = r_lo as i64;
    let rn: i64 = r_len as i64;
    match pos {
        None => 0,
        Some(AlignmentPosition::Start) => rl - tl,
        Some(AlignmentPosition::Center) => (rl + rn / 2) - (tl + tn / 2),
        Some(AlignmentPosition::End) => (rl + rn) - (tl + tn),
        Some(AlignmentPosition::Before) => rl - (tl + tn),
        Some(AlignmentPosition::After) => (rl + rn) - tl,
    }
}

impl Alignment {
    pub fn bidirectional(vertical: AlignmentPosition, horizontal: AlignmentPosition) -> (r: Alignment)
        ensures
            r.vertical == Some(vertical),
            r.horizontal == Some(horizontal),
    {
        Alignment { vertical: Some(vertical), horizontal: Some(horizontal) }
    }

    pub fn horizontal(horizontal: AlignmentPosition) -> (r: Alignment)
        ensures
            r.vertical.is_none(),
            r.horizontal == Some(horizontal),
    {
        Alignment { vertical: None, horizontal: Some(horizontal) }
    }

    pub fn vertical(vertical: AlignmentPosition) -> (r: Alignment)
        ensures
            r.vertical == Some(vertical),
            r.horizontal.is_none(),
    {
        Alignment { vertical: Some(vertical), horizontal: None }
    }

    pub fn center() -> (r: Alignment)
        ensures
            r.vertical == Some(AlignmentPosition::Center),
            r.horizontal == Some(AlignmentPosition::Center),
    {
        Alignment {
            vertical: Some(AlignmentPosition::Center),
            horizontal: Some(AlignmentPosition::Center),
        }
    }

    /// The horizontal offset that aligns `target` to `reference`.
    pub open spec fn offset_x(self, target: Rectangle, reference: Rectangle) -> int {
        axis_offset(
            self.horizontal,
            target.top_left.x as int,
            target.size.width as int,
            reference.top_left.x as int,
            reference.size.width as int,
        )
    }

    /// The vertical offset that aligns `target` to `reference`.
    pub open spec fn offset_y(self, target: Rectangle, reference: Rectangle) -> int {
        axis_offset(
            self.vertical,
            target.top_left.y as int,
            target.size.height as int,
            reference.top_left.y as int,
            reference.size.height as int,
        )
    }

    /// Both offsets fit in a point.
    pub open spec fn offset_fits(self, target: Rectangle, reference: Rectangle) -> bool {
        is_i32(self.offset_x(target, reference)) && is_i32(self.offset_y(target, reference))
    }

    pub open spec fn spec_offset(self, target: Rectangle, reference: Rectangle) -> Point {
        Point {
            x: self.offset_x(target, reference) as i32,
            y: self.offset_y(target, reference) as i32,
        }
    }

    /// The translation that moves `target` to its place relative to `reference`.
    pub fn offset(&self, target: Rectangle, reference: Rectangle) -> (r: Point)
        requires
            self.offset_fits(target, reference),
        ensures
            r.x == self.offset_x(target, reference),
            r.y == self.offset_y(target, reference),
            r == self.spec_offset(target, reference),
    {
        let x = axis_offset_exec(
            self.horizontal,
            target.top_left.x,
            target.size.width,
            reference.top_left.x,
            reference.size.width,
        );
        let y = axis_offset_exec(
            self.vertical,
            target.top_left.y,
            target.size.height,
            reference.top_left.y,
            reference.size.height,
        );
        Point::new(x as i32, y as i32)
    }

    /// The translation that moves `target` to its place relative to
    /// `reference`, or `None` where it does not fit in a point.
    pub fn checked_offset(&self, target: Rectangle, reference: Rectangle) -> (r: Option<Point>)
        ensures
            r.is_some() <==> self.offset_fits(target, reference),
            r.is_some() ==> r == Some(self.spec_offset(target, reference)),
    {
        let x = axis_offset_exec(
            self.horizontal,
            target.top_left.x,
            target.size.width,
            reference.top_left.x,
            reference.size.width,
        );
        let y = axis_offset_exec(
            self.vertical,
            target.top_left.y,
            target.size.height,
            reference.top_left.y,
            reference.size.height,
        );
        if x < i32::MIN as i64 || x > i32::MAX as i64 || y < i32::MIN as i64 || y > i32::MAX as i64 {
            None
        } else {
            Some(Point::new(x as i32, y as i32))
        }
    }

    /// Aligning `target` to `reference` stays on the grid: the offset fits
    /// and moving the target by it does too.
    pub open spec fn can_align<T: View, R: View>(self, target: &T, reference: &R) -> bool {
        &&& target.bounds_defined()
        &&& reference.bounds_defined()
        &&& self.offset_fits(target.bounds(), reference.bounds())
        &&& target.can_translate(self.spec_offset(target.bounds(), reference.bounds()))
    }
}

/// Placing a view relative to a reference view.
pub trait Align: View {
    /// This view, moved to its place relative to `reference`.
    fn align_to<R: View>(self, reference: &R, alignment: &Alignment) -> (r: Self)
        requires
            alignment.can_align(&self, reference),
        ensures
            r == self.translated(alignment.spec_offset(self.bounds(), reference.bounds())),
    ;

    /// Moves this view to its place relative to `reference`.
    fn align_to_mut<R: View>(&mut self, reference: &R, alignment: &Alignment) -> (r: &mut Self)
        requires
            alignment.can_align(old(self), reference),
        ensures
            *r == old(self).translated(alignment.spec_offset(old(self).bounds(), reference.bounds())),
            *final(self) == *final(r),
    ;
}

impl<T: View> Align for T {
    fn align_to<R: View>(self, reference: &R, alignment: &Alignment) -> (r: Self) {
        let mut moved = self;
        moved.align_to_mut(reference, alignment);
        moved
    }

    fn align_to_mut<R: View>(&mut self, reference: &R, alignment: &Alignment) -> (r: &mut Self) {
        let self_bounds = self.bounding_box();
        let reference_bounds = reference.bounding_box();
        let by = alignment.offset(self_bounds, reference_bounds);
        self.translate_mut(by)
    }
}

/// `target` moved to its place relative to `reference`.
pub open spec fn aligned(alignment: Alignment, target: Rectangle, reference: Rectangle) -> Rectangle {
    target.translated(alignment.spec_offset(target, reference))
}

/// Centering along an axis makes the midpoint of the aligned extent equal
/// to the midpoint of the reference's extent on that axis. An axis with no
/// position keeps its coordinate, and the size never changes.
pub proof fn lemma_center_aligns_midpoints(alignment: Alignment, target: Rectangle, reference: Rectangle)
    requires
        alignment.can_align(&target, &reference),
    ensures
        aligned(alignment, target, reference).size == target.size,
        alignment.horizontal == Some(AlignmentPosition::Center) ==> aligned(alignment, target, reference).top_left.x
            + target.size.width / 2 == reference.top_left.x + reference.size.width / 2,
        alignment.vertical == Some(AlignmentPosition::Center) ==> aligned(alignment, target, reference).top_left.y
            + target.size.height / 2 == reference.top_left.y + reference.size.height / 2,
        alignment.horizontal.is_none() ==> aligned(alignment, target, reference).top_left.x
            == target.top_left.x,
        alignment.vertical.is_none() ==> aligned(alignment, target, reference).top_left.y
            == target.top_left.y,
{
}

/// `Start` makes the near edges coincide and `End` the far edges, where the
/// far edge is the near edge plus the extent.
pub proof fn lemma_start_end_align_edges(alignment: Alignment, target: Rectangle, reference: Rectangle)
    requires
        alignment.can_align(&target, &reference),
    ensures
        alignment.horizontal == Some(AlignmentPosition::Start) ==> aligned(alignment, target, reference).top_left.x
            == reference.top_left.x,
        alignment.vertical == Some(AlignmentPosition::Start) ==> aligned(alignment, target, reference).top_left.y
            == reference.top_left.y,
        alignment.horizontal == Some(AlignmentPosition::End) ==> aligned(alignment, target, reference).top_left.x
            + target.size.width == reference.top_left.x + reference.size.width,
        alignment.vertical == Some(AlignmentPosition::End) ==> aligned(alignment, target, reference).top_left.y
            + target.size.height == reference.top_left.y + reference.size.height,
        alignment.horizontal == Some(AlignmentPosition::End) && !target.is_degenerate()
            && !reference.is_degenerate() ==> aligned(alignment, target, reference).far_x() == reference.far_x(),
        alignment.vertical == Some(AlignmentPosition::End) && !target.is_degenerate()
            && !reference.is_degenerate() ==> aligned(alignment, target, reference).far_y() == reference.far_y(),
{
}

/// `After` puts the near edge of the aligned view one unit past the far edge
/// of the reference, whatever the target's extent, zero included. The far
/// edge here is the last column (row) of a reference with a non-zero extent.
pub proof fn lemma_after_abuts_far_edge(alignment: Alignment, target: Rectangle, reference: Rectangle)
    requires
        alignment.can_align(&target, &reference),
    ensures
        alignment.horizontal == Some(AlignmentPosition::After) ==> aligned(alignment, target, reference).top_left.x
            == reference.top_left.x + reference.size.width,
        alignment.vertical == Some(AlignmentPosition::After) ==> aligned(alignment, target, reference).top_left.y
            == reference.top_left.y + reference.size.height,
        alignment.horizontal == Some(AlignmentPosition::After) && !reference.is_degenerate()
            ==> aligned(alignment, target, reference).top_left.x == reference.far_x() + 1,
        alignment.vertical == Some(AlignmentPosition::After) && !reference.is_degenerate()
            ==> aligned(alignment, target, reference).top_left.y == reference.far_y() + 1,
{
}

/// `Before` puts the far edge of the aligned view one unit before the near
/// edge of the reference.
pub proof fn lemma_before_abuts_near_edge(alignment: Alignment, target: Rectangle, reference: Rectangle)
    requires
        alignment.can_align(&target, &reference),
    ensures
        alignment.horizontal == Some(AlignmentPosition::Before) ==> aligned(alignment, target, reference).top_left.x
            + target.size.width == reference.top_left.x,
        alignment.vertical == Some(AlignmentPosition::Before) ==> aligned(alignment, target, reference).top_left.y
            + target.size.height == reference.top_left.y,
        alignment.horizontal == Some(AlignmentPosition::Before) && !target.is_degenerate()
            ==> aligned(alignment, target, reference).far_x() == reference.top_left.x - 1,
        alignment.vertical == Some(AlignmentPosition::Before) && !target.is_degenerate()
            ==> aligned(alignment, target, reference).far_y() == reference.top_left.y - 1,
{
}

/// Aligning an already aligned view to the same reference with the same rule
/// moves it by nothing.
pub proof fn lemma_align_idempotent(alignment: Alignment, target: Rectangle, reference: Rectangle)
    requires
        alignment.can_align(&target, &reference),
    ensures
        alignment.offset_x(aligned(alignment, target, reference), reference) == 0,
        alignment.offset_y(aligned(alignment, target, reference), reference) == 0,
        alignment.can_align(&aligned(alignment, target, reference), &reference),
        aligned(alignment, aligned(alignment, target, reference), reference) == aligned(
            alignment,
            target,
            reference,
        ),
{
}

} // verus!
