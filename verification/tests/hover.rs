use wars::hover::ButtonChecker;
use wars::units::UNIT;

#[test]
fn a_new_checker_rests_in_the_corner() {
    let checker = ButtonChecker::new();
    assert!(checker.is_button_hovered(0, 0, 10, 10));
    assert!(!checker.is_button_hovered(80 * UNIT, 275 * UNIT, 200 * UNIT, 100 * UNIT));
}

#[test]
fn checker_tests_the_position_pushed_last() {
    let mut checker = ButtonChecker::new();
    checker.update_mouse_position(100 * UNIT, 300 * UNIT);
    assert!(checker.is_button_hovered(80 * UNIT, 275 * UNIT, 200 * UNIT, 100 * UNIT));
    checker.update_mouse_position(100 * UNIT, 450 * UNIT);
    assert!(!checker.is_button_hovered(80 * UNIT, 275 * UNIT, 200 * UNIT, 100 * UNIT));
    assert!(checker.is_button_hovered(80 * UNIT, 400 * UNIT, 400 * UNIT, 100 * UNIT));
}

#[test]
fn the_edges_belong_to_the_rectangle() {
    let mut checker = ButtonChecker::new();
    checker.update_mouse_position(80, 275);
    assert!(checker.is_button_hovered(80, 275, 200, 100));
    checker.update_mouse_position(280, 375);
    assert!(checker.is_button_hovered(80, 275, 200, 100));
    checker.update_mouse_position(79, 300);
    assert!(!checker.is_button_hovered(80, 275, 200, 100));
    checker.update_mouse_position(281, 300);
    assert!(!checker.is_button_hovered(80, 275, 200, 100));
    checker.update_mouse_position(100, 274);
    assert!(!checker.is_button_hovered(80, 275, 200, 100));
    checker.update_mouse_position(100, 376);
    assert!(!checker.is_button_hovered(80, 275, 200, 100));
}

#[test]
fn rectangles_at_the_end_of_the_range_do_not_overflow() {
    let mut checker = ButtonChecker::new();
    checker.update_mouse_position(i64::MAX, i64::MAX);
    assert!(checker.is_button_hovered(i64::MAX - 5, i64::MAX - 5, i64::MAX, i64::MAX));
    assert!(!checker.is_button_hovered(i64::MIN, i64::MIN, 10, 10));
    assert!(!checker.is_button_hovered(0, 0, -1, -1));
}
