use grus_gui_lib::geometry::{
    at_least, at_most, half_floor, is_finite, Pos2, Rect, Vec2, COORD_LIMIT, INFINITY, SIZE_LIMIT,
};

fn rect(x0: i64, y0: i64, x1: i64, y1: i64) -> Rect {
    Rect::from_min_max(Pos2::new(x0, y0), Pos2::new(x1, y1))
}

#[test]
fn at_least_and_at_most_pick_the_right_side() {
    assert_eq!(at_least(3, 7), 7);
    assert_eq!(at_least(7, 3), 7);
    assert_eq!(at_least(-7, -3), -3);
    assert_eq!(at_most(3, 7), 3);
    assert_eq!(at_most(-3, -7), -7);
    assert_eq!(at_most(5, INFINITY), 5);
}

#[test]
fn half_floor_rounds_down() {
    assert_eq!(half_floor(7), 3);
    assert_eq!(half_floor(8), 4);
    assert_eq!(half_floor(-7), -4);
    assert_eq!(half_floor(-8), -4);
    assert_eq!(half_floor(-1), -1);
    assert_eq!(half_floor(0), 0);
    assert_eq!(half_floor(i64::MAX), 4611686018427387903);
    assert_eq!(half_floor(i64::MIN), -4611686018427387904);
    assert_eq!(half_floor(i64::MIN + 1), -4611686018427387904);
}

#[test]
fn finite_range_ends_at_the_limit() {
    assert!(is_finite(0));
    assert!(is_finite(COORD_LIMIT));
    assert!(is_finite(-COORD_LIMIT));
    assert!(!is_finite(COORD_LIMIT + 1));
    assert!(!is_finite(-COORD_LIMIT - 1));
    assert!(!is_finite(INFINITY));
    assert_eq!(SIZE_LIMIT, 2 * COORD_LIMIT);
    assert!(Vec2::new(1, -1).is_finite());
    assert!(!Vec2::new(1, INFINITY).is_finite());
    assert!(Pos2::new(COORD_LIMIT, 0).is_finite());
    assert!(!rect(0, 0, COORD_LIMIT + 1, 0).is_finite());
}

#[test]
fn vec2_max_is_component_wise() {
    assert_eq!(Vec2::new(1, 9).max(Vec2::new(5, 2)), Vec2::new(5, 9));
    assert_eq!(Vec2::new(-1, -9).max(Vec2::new(-5, -2)), Vec2::new(-1, -2));
}

#[test]
fn rect_from_min_size_and_extent() {
    let r = Rect::from_min_size(Pos2::new(10, 20), Vec2::new(30, 5));
    assert_eq!(r, rect(10, 20, 40, 25));
    assert_eq!(r.width(), 30);
    assert_eq!(r.height(), 5);
    assert_eq!(r.size(), Vec2::new(30, 5));
    assert_eq!(r.left(), 10);
    assert_eq!(r.right(), 40);
    assert_eq!(r.top(), 20);
    assert_eq!(r.bottom(), 25);
    assert_eq!(r.left_top(), Pos2::new(10, 20));
    assert_eq!(r.right_top(), Pos2::new(40, 20));
    assert_eq!(r.center_top(), Pos2::new(25, 20));
    assert_eq!(r.center(), Pos2::new(25, 22));
}

#[test]
fn rect_width_of_crossed_corners_is_negative() {
    assert_eq!(rect(10, 0, 4, 0).width(), -6);
}

#[test]
fn rect_intersect_and_union() {
    let a = rect(0, 0, 10, 10);
    let b = rect(5, -5, 20, 7);
    assert_eq!(a.intersect(b), rect(5, 0, 10, 7));
    assert_eq!(a.union(b), rect(0, -5, 20, 10));
    // No overlap: the corners of the intersection are crossed.
    assert_eq!(a.intersect(rect(20, 20, 30, 30)), rect(20, 20, 10, 10));
}

#[test]
fn rect_expand_and_translate() {
    let r = rect(10, 20, 40, 25);
    assert_eq!(r.expand2(Vec2::new(2, 0)), rect(8, 20, 42, 25));
    assert_eq!(r.expand2(Vec2::new(0, 3)), rect(10, 17, 40, 28));
    assert_eq!(r.translate(Vec2::new(-10, 5)), rect(0, 25, 30, 30));
}
