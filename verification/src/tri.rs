use vstd::prelude::*;
use crate::config::POS_LIMIT;
use crate::geometry::Vec2;
use crate::lseg::{seg_cross, sign_m, LSeg};

verus! {

/// A 2D triangle given by its three corners.
#[derive(Clone, Copy, PartialEq, Eq, Structural, Debug)]
pub struct Tri {
    pub a: Vec2,
    pub b: Vec2,
    pub c: Vec2,
}

/// True when `p` lies on the same side of all three edges, walked in corner
/// order: inside the triangle, edges excluded.
pub open spec fn tri_contains(t: Tri, p: Vec2) -> bool {
    let s1 = sign_m(seg_cross(LSeg { a: t.a, b: t.b }, p));
    let s2 = sign_m(seg_cross(LSeg { a: t.b, b: t.c }, p));
    let s3 = sign_m(seg_cross(LSeg { a: t.c, b: t.a }, p));
    s1 == s2 && s2 == s3
}

impl Tri {
    /// Returns a new triangle from the given corners.
    pub fn new(a: Vec2, b: Vec2, c: Vec2) -> (r: Self)
        ensures
            r.a == a,
            r.b == b,
            r.c == c,
    {
        Tri { a, b, c }
    }

    /// Returns a new triangle from the given corner coordinates.
    pub fn new_xy(ax: i32, ay: i32, bx: i32, by: i32, cx: i32, cy: i32) -> (r: Self)
        ensures
            r.a == (Vec2 { x: ax, y: ay }),
            r.b == (Vec2 { x: bx, y: by }),
            r.c == (Vec2 { x: cx, y: cy }),
    {
        Tri {
            a: Vec2 { x: ax, y: ay },
            b: Vec2 { x: bx, y: by },
            c: Vec2 { x: cx, y: cy },
        }
    }

    /// Returns true if the point is inside the triangle (not on an edge).
    pub fn contains_point(&self, p: Vec2) -> (r: bool)
        requires
            -POS_LIMIT <= self.a.x <= POS_LIMIT,
            -POS_LIMIT <= self.a.y <= POS_LIMIT,
            -POS_LIMIT <= self.b.x <= POS_LIMIT,
            -POS_LIMIT <= self.b.y <= POS_LIMIT,
            -POS_LIMIT <= self.c.x <= POS_LIMIT,
            -POS_LIMIT <= self.c.y <= POS_LIMIT,
            -POS_LIMIT <= p.x <= POS_LIMIT,
            -POS_LIMIT <= p.y <= POS_LIMIT,
        ensures
            r == tri_contains(*self, p),
    {
        let s1 = Self::side(self.a, self.b, p);
        let s2 = Self::side(self.b, self.c, p);
        let s3 = Self::side(self.c, self.a, p);
        s1 == s2 && s2 == s3
    }

    /// The side of the directed line `a -> b` that `p` lies on: 1, -1, or 0
    /// when it lies on the line.
    fn side(a: Vec2, b: Vec2, p: Vec2) -> (r: i32)
        requires
            -POS_LIMIT <= a.x <= POS_LIMIT,
            -POS_LIMIT <= a.y <= POS_LIMIT,
            -POS_LIMIT <= b.x <= POS_LIMIT,
            -POS_LIMIT <= b.y <= POS_LIMIT,
            -POS_LIMIT <= p.x <= POS_LIMIT,
            -POS_LIMIT <= p.y <= POS_LIMIT,
        ensures
            r as int == sign_m(seg_cross(LSeg { a, b }, p)),
    {
        let c = b.minus(a).cross(p.minus(a));
        if c > 0 {
            1
        } else if c < 0 {
            -1
        } else {
            0
        }
    }
}

} // verus!
