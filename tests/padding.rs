use embedded_layout::padding::Padding;
use embedded_layout::{ContainsPoint, Point, Rectangle, Size, View};

fn test_rect() -> Rectangle {
    Rectangle::new(Point::new(10, 13), Size::new(5, 8))
}

#[test]
fn test_zero_padding() {
    let test_rect = test_rect();
    let padded_rect = Padding::zero(test_rect);
    assert_eq!(test_rect, padded_rect.bounding_box());
}

#[test]
fn test_positive_padding() {
    let test_rect = test_rect();
    let padded_rect = Padding::each(2, 12, 57, 9, test_rect);
    assert_eq!(
        Rectangle::with_corners(Point::new(1, 11), Point::new(26, 77)),
        padded_rect.bounding_box()
    );
}

#[test]
fn test_negative_padding() {
    let test_rect = test_rect();
    let padded_rect = Padding::all(-1, test_rect);
    assert_eq!(
        Rectangle::new(Point::new(11, 14), Size::new(3, 6)),
        padded_rect.bounding_box()
    );
}

#[test]
fn padding_round_trip_restores_rectangle() {
    let rect = test_rect();
    for n in [-2, -1, 0, 1, 3, 1000] {
        let grown = Padding::all(n, rect).bounding_box();
        assert_eq!(Padding::all(-n, grown).bounding_box(), rect);
        let nested = Padding::all(-n, Padding::all(n, rect));
        assert_eq!(nested.bounding_box(), rect);
    }
}

#[test]
fn padding_presets_set_the_right_edges() {
    let rect = test_rect();
    assert_eq!(
        Padding::horizontal(2, rect).bounding_box(),
        Rectangle::new(Point::new(8, 13), Size::new(9, 8))
    );
    assert_eq!(
        Padding::vertical(2, rect).bounding_box(),
        Rectangle::new(Point::new(10, 11), Size::new(5, 12))
    );
    assert_eq!(
        Padding::vertical_and_horizontal(1, 3, rect).bounding_box(),
        Rectangle::new(Point::new(7, 12), Size::new(11, 10))
    );
    assert_eq!(
        Padding::all(4, rect).bounding_box(),
        Rectangle::new(Point::new(6, 9), Size::new(13, 16))
    );
}

#[test]
fn padding_a_degenerate_rectangle_counts_one_pixel() {
    let rect = Rectangle::new(Point::new(3, 4), Size::zero());
    assert_eq!(
        Padding::zero(rect).bounding_box(),
        Rectangle::new(Point::new(3, 4), Size::new(1, 1))
    );
    assert_eq!(
        Padding::all(2, rect).bounding_box(),
        Rectangle::new(Point::new(1, 2), Size::new(5, 5))
    );
}

#[test]
fn inverted_edges_give_zero_extent() {
    let rect = test_rect();
    let shrunk = Padding::all(-5, rect).bounding_box();
    assert_eq!(shrunk.top_left, Point::new(15, 18));
    assert_eq!(shrunk.size.width, 0);
    assert_eq!(shrunk.size.height, 0);
}

#[test]
fn extreme_padding_saturates() {
    let rect = Rectangle::new(Point::new(-100, -100), Size::new(300, 300));
    let huge = Padding::all(i32::MAX, rect).bounding_box();
    assert_eq!(huge.top_left, Point::new(i32::MIN, i32::MIN));
    assert_eq!(huge.size, Size::new(u32::MAX, u32::MAX));
    let tiny = Padding::all(i32::MIN, test_rect()).bounding_box();
    assert_eq!(tiny.top_left, Point::new(i32::MAX, i32::MAX));
    assert_eq!(tiny.size, Size::new(0, 0));
}

#[test]
fn translating_padding_moves_child_and_keeps_margins() {
    let padded = Padding::each(1, 2, 3, 4, test_rect());
    let moved = padded.translate(Point::new(5, -3));
    assert_eq!(moved, Padding::each(1, 2, 3, 4, test_rect().translate(Point::new(5, -3))));
    assert_eq!(
        moved.bounding_box(),
        Rectangle::new(Point::new(11, 9), Size::new(11, 12))
    );
    let mut in_place = padded;
    in_place.translate_mut(Point::new(5, -3));
    assert_eq!(in_place, moved);
}

#[test]
fn padding_does_not_change_containment() {
    let padded = Padding::all(10, test_rect());
    assert!(padded.contains(Point::new(10, 13)));
    assert!(!padded.contains(Point::new(9, 13)));
    assert!(!padded.contains(Point::new(15, 13)));
}
