use platcore::geometry::Vec2;
use platcore::lseg::LSeg;
use platcore::tri::Tri;

#[test]
fn segment_contains_its_points() {
    let s = LSeg::new_xy(0, 0, 10, 0);
    assert!(s.contains(Vec2::new(5, 0)));
    assert!(s.contains(Vec2::new(0, 0)));
    assert!(s.contains(Vec2::new(10, 0)));
    assert!(!s.contains(Vec2::new(5, 1)));
    assert!(!s.contains(Vec2::new(11, 0)));
}

#[test]
fn crossing_segments_hit() {
    let s = LSeg::new_xy(0, 0, 10, 10);
    let t = LSeg::new_xy(0, 10, 10, 0);
    assert!(s.hits(&t));
    assert!(t.hits(&s));
}

#[test]
fn parallel_segments_do_not_hit() {
    let s = LSeg::new_xy(0, 0, 10, 0);
    let t = LSeg::new_xy(0, 5, 10, 5);
    assert!(!s.hits(&t));
}

#[test]
fn touching_endpoint_hits() {
    let s = LSeg::new_xy(0, 0, 10, 0);
    let t = LSeg::new_xy(10, 0, 10, 10);
    assert!(s.hits(&t));
}

#[test]
fn triangle_contains_interior_points_only() {
    let t = Tri::new_xy(0, 0, 10, 0, 0, 10);
    assert!(t.contains_point(Vec2::new(2, 2)));
    assert!(!t.contains_point(Vec2::new(20, 20)));
    assert!(!t.contains_point(Vec2::new(-1, 5)));
}

#[test]
fn triangle_corners_are_constructed_in_order() {
    let t = Tri::new(Vec2::new(1, 2), Vec2::new(3, 4), Vec2::new(5, 6));
    assert_eq!((t.a.x, t.b.y, t.c.x), (1, 4, 5));
}
