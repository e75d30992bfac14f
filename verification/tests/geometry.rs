use primer::geometry::{area, Point, Position};

#[test]
fn area_of_30_by_50() {
    assert_eq!(area(30, 50), 1500);
}

#[test]
fn area_with_a_side_of_zero() {
    assert_eq!(area(0, 50), 0);
    assert_eq!(area(30, 0), 0);
    assert_eq!(area(0, u32::MAX), 0);
}

#[test]
fn area_up_to_the_largest_value() {
    assert_eq!(area(1, u32::MAX), u32::MAX);
    assert_eq!(area(65535, 65537), u32::MAX);
    assert_eq!(area(65536, 65535), 4294901760);
}

#[test]
fn point_on_the_y_axis() {
    let p = Point { x: 0, y: 7 };
    assert_eq!(p.position(), Position::OnYAxis(7));
}

#[test]
fn point_on_the_x_axis() {
    let p = Point { x: -3, y: 0 };
    assert_eq!(p.position(), Position::OnXAxis(-3));
}

#[test]
fn origin_counts_as_on_the_x_axis() {
    let p = Point { x: 0, y: 0 };
    assert_eq!(p.position(), Position::OnXAxis(0));
}

#[test]
fn point_on_neither_axis() {
    let p = Point { x: 2, y: -9 };
    assert_eq!(p.position(), Position::OffAxes(2, -9));
    let q = Point { x: i32::MIN, y: i32::MAX };
    assert_eq!(q.position(), Position::OffAxes(i32::MIN, i32::MAX));
}
