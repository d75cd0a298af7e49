use flappy_bevy::geometry::{clamp_coordinate, Aabb, HitCircle, Vec2};

fn circle(x: i64, y: i64, radius: i64) -> HitCircle {
    HitCircle { center: Vec2 { x, y }, radius }
}

fn aabb(min_x: i64, min_y: i64, max_x: i64, max_y: i64) -> Aabb {
    Aabb { min: Vec2 { x: min_x, y: min_y }, max: Vec2 { x: max_x, y: max_y } }
}

#[test]
fn clamp_moves_value_into_interval() {
    assert_eq!(clamp_coordinate(-7, -5, 5), -5);
    assert_eq!(clamp_coordinate(9, -5, 5), 5);
    assert_eq!(clamp_coordinate(3, -5, 5), 3);
    assert_eq!(clamp_coordinate(3, 4, 4), 4);
}

#[test]
fn circle_touches_box_at_exact_radius() {
    // The nearest point of the box is its corner (3, 4), at distance 5.
    assert!(circle(0, 0, 5).intersects(&aabb(3, 4, 10, 10)));
}

#[test]
fn circle_misses_box_just_out_of_reach() {
    // The corner (4, 4) is at squared distance 32, more than 25.
    assert!(!circle(0, 0, 5).intersects(&aabb(4, 4, 10, 10)));
    assert!(!circle(0, 0, 5).intersects(&aabb(6, -10, 10, 10)));
}

#[test]
fn circle_with_center_inside_box_touches() {
    assert!(circle(5, 5, 0).intersects(&aabb(0, 0, 10, 10)));
    assert!(circle(5, 5, 3).intersects(&aabb(0, 0, 10, 10)));
}

#[test]
fn circle_touches_box_along_an_edge() {
    assert!(circle(0, 5, 2).intersects(&aabb(2, 0, 10, 10)));
    assert!(!circle(0, 5, 1).intersects(&aabb(2, 0, 10, 10)));
}

#[test]
fn point_circle_touches_only_where_it_lies() {
    assert!(circle(2, 0, 0).intersects(&aabb(2, 0, 10, 10)));
    assert!(!circle(1, 0, 0).intersects(&aabb(2, 0, 10, 10)));
}

#[test]
fn intersection_survives_the_largest_coordinates() {
    let far = aabb(i64::MAX - 1, i64::MAX - 1, i64::MAX, i64::MAX);
    assert!(!circle(i64::MIN, i64::MIN, i64::MAX).intersects(&far));
    assert!(circle(i64::MAX, i64::MAX, i64::MAX).intersects(&far));
    let whole = aabb(i64::MIN, i64::MIN, i64::MAX, i64::MAX);
    assert!(circle(0, 0, 0).intersects(&whole));
    assert!(circle(i64::MIN, 0, i64::MAX).intersects(&aabb(-1, -1, 0, 0)));
    assert!(!circle(i64::MIN, 0, i64::MAX).intersects(&aabb(0, -1, 0, 0)));
}
