use platcore::geometry::{BBox, Rect, Square, Vec2};

#[test]
fn square_overlap_is_symmetric() {
    let a = Square::new(0, 0, 10);
    let b = Square::new(5, 5, 10);
    assert_eq!(a.collides_with(&b), b.collides_with(&a));
    assert!(a.collides_with(&b));
    let c = Square::new(100, 100, 10);
    assert_eq!(a.collides_with(&c), c.collides_with(&a));
    assert!(!a.collides_with(&c));
}

#[test]
fn square_touching_edges_count_as_overlap() {
    // Entity bodies use the non-strict test: edge contact collides.
    let a = Square::new(0, 0, 10);
    let b = Square::new(10, 0, 10);
    assert!(a.collides_with(&b));
    assert!(b.collides_with(&a));
    let c = Square::new(11, 0, 10);
    assert!(!a.collides_with(&c));
}

#[test]
fn box_touching_edges_do_not_collide() {
    // Tile bounds use the strict test: edge contact is not a collision.
    let b = BBox::new(10, 0, 20, 10);
    let q = Square::new(0, 0, 10);
    assert!(!b.collides_with_sqr(&q));
    let q2 = Square::new(1, 0, 10);
    assert!(b.collides_with_sqr(&q2));
}

#[test]
fn box_contains_square_per_axis() {
    let w = BBox::new(0, 0, 100, 100);
    let inside = Square::new(10, 10, 20);
    assert_eq!(w.contains_sqr(&inside), (true, true));
    let off_x = Square::new(90, 10, 20);
    assert_eq!(w.contains_sqr(&off_x), (false, true));
    let off_y = Square::new(10, -5, 20);
    assert_eq!(w.contains_sqr(&off_y), (true, false));
}

#[test]
fn centers_are_midpoints() {
    let s = Square::new(0, 0, 10);
    let c = s.center();
    assert_eq!((c.x, c.y), (5, 5));
    let b = BBox::new(0, 0, 10, 20);
    let c2 = b.center();
    assert_eq!((c2.x, c2.y), (5, 10));
    let r = Rect::new(4, 4, 10, 20);
    let c3 = r.center();
    assert_eq!((c3.x, c3.y), (9, 14));
}

#[test]
fn rect_overlap_is_symmetric() {
    let a = Rect::new(0, 0, 10, 10);
    let b = Rect::new(9, 9, 10, 10);
    assert_eq!(a.do_collide(&b), b.do_collide(&a));
    assert!(a.do_collide(&b));
    let c = Rect::new(10, 0, 10, 10);
    // Rects use the strict test: edge contact is not a collision.
    assert!(!a.do_collide(&c));
    assert_eq!(a.do_collide(&c), c.do_collide(&a));
}

#[test]
fn vector_products_are_exact() {
    let p = Vec2::new(3, 4);
    let q = Vec2::new(-2, 5);
    assert_eq!(p.cross(q), 3 * 5 - 4 * (-2));
    assert_eq!(p.dot(q), 3 * (-2) + 4 * 5);
    assert_eq!(p.mag_sqr(), 25);
    assert_eq!(p.dst_to_sqr(q), 25 + 1);
    let d = p.minus(q);
    assert_eq!((d.x, d.y), (5, -1));
    let z = Vec2::zero();
    assert_eq!((z.x, z.y), (0, 0));
}
