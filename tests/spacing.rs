use embedded_layout::layout::linear::spacing::{ElementSpacing, FixedMargin, Tight};

#[test]
fn tight_adds_nothing() {
    assert_eq!(Tight.modify_measurement(42, 5), 42);
    assert_eq!(Tight.modify_placement(0, 42), 0);
    assert_eq!(Tight.modify_placement(3, 42), 0);
}

#[test]
fn fixed_margin_measurement() {
    assert_eq!(FixedMargin(3).modify_measurement(10, 4), 19);
    assert_eq!(FixedMargin(3).modify_measurement(10, 1), 10);
    assert_eq!(FixedMargin(-2).modify_measurement(10, 3), 6);
}

#[test]
fn fixed_margin_no_objects_keeps_size() {
    for g in [-5, 0, 7, i32::MAX, i32::MIN] {
        assert_eq!(FixedMargin(g).modify_measurement(123, 0), 123);
        assert_eq!(FixedMargin(g).modify_measurement(u32::MAX, 0), u32::MAX);
    }
}

#[test]
fn fixed_margin_placement() {
    for g in [-5, 0, 7] {
        assert_eq!(FixedMargin(g).modify_placement(0, 99), 0);
        assert_eq!(FixedMargin(g).modify_placement(1, 99), g);
        assert_eq!(FixedMargin(g).modify_placement(17, 0), g);
    }
}
