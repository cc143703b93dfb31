use lockmousetomonitor::geometry::{at_rect_edge, point_in_rect, Point, Rect};

fn rect(left: i32, top: i32, right: i32, bottom: i32) -> Rect {
    Rect { left, top, right, bottom }
}

fn pt(x: i32, y: i32) -> Point {
    Point { x, y }
}

#[test]
fn containment_is_half_open() {
    let r = rect(0, 0, 100, 50);
    assert!(point_in_rect(&pt(0, 0), &r));
    assert!(point_in_rect(&pt(99, 49), &r));
    assert!(!point_in_rect(&pt(100, 25), &r));
    assert!(!point_in_rect(&pt(50, 50), &r));
    assert!(!point_in_rect(&pt(-1, 25), &r));
    assert!(!point_in_rect(&pt(50, -1), &r));
}

#[test]
fn containment_with_negative_coordinates() {
    let r = rect(-1920, -100, 0, 980);
    assert!(point_in_rect(&pt(-1920, -100), &r));
    assert!(point_in_rect(&pt(-1, 979), &r));
    assert!(!point_in_rect(&pt(0, 0), &r));
}

#[test]
fn edge_margin_is_one_unit_on_each_side() {
    let r = rect(0, 0, 100, 100);
    // left + 1 and right - 1 count as edge
    assert!(at_rect_edge(&pt(1, 50), &r));
    assert!(at_rect_edge(&pt(99, 50), &r));
    // top + 1 and bottom - 1 count as edge
    assert!(at_rect_edge(&pt(50, 1), &r));
    assert!(at_rect_edge(&pt(50, 99), &r));
    // one unit further in is interior
    assert!(!at_rect_edge(&pt(2, 50), &r));
    assert!(!at_rect_edge(&pt(98, 50), &r));
    assert!(!at_rect_edge(&pt(50, 2), &r));
    assert!(!at_rect_edge(&pt(50, 98), &r));
    // well inside
    assert!(!at_rect_edge(&pt(50, 50), &r));
    // outside still counts as past the boundary line
    assert!(at_rect_edge(&pt(-5, 50), &r));
    assert!(at_rect_edge(&pt(120, 50), &r));
}

#[test]
fn width_and_height() {
    let r = rect(-1920, -100, 0, 980);
    assert_eq!(r.width(), 1920);
    assert_eq!(r.height(), 1080);
    let extreme = rect(i32::MIN, i32::MIN, i32::MAX, i32::MAX);
    assert_eq!(extreme.width(), (i32::MAX as i64) - (i32::MIN as i64));
    assert_eq!(extreme.height(), (i32::MAX as i64) - (i32::MIN as i64));
}
