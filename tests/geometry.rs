use snake::geometry::{dec_loop_around, inc_loop_around};
use snake::Point;

#[test]
fn new_rounds_column_to_even() {
    assert_eq!(Point::new(6, 1), Point { x: 6, y: 1 });
    assert_eq!(Point::new(5, 3), Point { x: 4, y: 3 });
    assert_eq!(Point::new(1, 0), Point { x: 2, y: 0 });
    assert_eq!(Point::new(0, 7), Point { x: 0, y: 7 });
    assert_eq!(Point::new(u16::MAX, 2), Point { x: u16::MAX - 1, y: 2 });
}

#[test]
fn round_to_multiple_of_two_values() {
    assert_eq!(Point::round_to_multiple_of_two(10), 10);
    assert_eq!(Point::round_to_multiple_of_two(11), 10);
    assert_eq!(Point::round_to_multiple_of_two(1), 2);
}

#[test]
fn vertical_moves_wrap() {
    let p = Point { x: 4, y: 0 };
    assert_eq!(p.up(10), Point { x: 4, y: 9 });
    assert_eq!(p.down(10), Point { x: 4, y: 1 });
    let bottom = Point { x: 4, y: 9 };
    assert_eq!(bottom.down(10), Point { x: 4, y: 0 });
    assert_eq!(bottom.up(10), Point { x: 4, y: 8 });
}

#[test]
fn horizontal_moves_stride_two_and_wrap() {
    let p = Point { x: 0, y: 3 };
    assert_eq!(p.left(10), Point { x: 8, y: 3 });
    assert_eq!(p.right(10), Point { x: 2, y: 3 });
    let edge = Point { x: 8, y: 3 };
    assert_eq!(edge.right(10), Point { x: 0, y: 3 });
    assert_eq!(edge.left(10), Point { x: 6, y: 3 });
}

#[test]
fn loop_around_helpers() {
    assert_eq!(inc_loop_around(3, 5, false), 4);
    assert_eq!(inc_loop_around(4, 5, false), 0);
    assert_eq!(inc_loop_around(6, 10, true), 8);
    assert_eq!(inc_loop_around(8, 10, true), 0);
    assert_eq!(inc_loop_around(u16::MAX, u16::MAX, false), 0);
    assert_eq!(dec_loop_around(0, 5, false), 4);
    assert_eq!(dec_loop_around(3, 5, false), 2);
    assert_eq!(dec_loop_around(0, 10, true), 8);
    assert_eq!(dec_loop_around(1, 10, true), 8);
    assert_eq!(dec_loop_around(2, 10, true), 0);
}
