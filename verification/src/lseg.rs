use vstd::prelude::*;
use crate::config::POS_LIMIT;
use crate::geometry::{max_m, min_m, Vec2};

verus! {

/// A 2D line segment between two points.
#[derive(Clone, Copy, PartialEq, Eq, Structural, Debug)]
pub struct LSeg {
    pub a: Vec2,
    pub b: Vec2,
}

/// The sign of an integer: 1, -1 or 0.
pub open spec fn sign_m(v: int) -> int {
    if v > 0 {
        1
    } else if v < 0 {
        -1
    } else {
        0
    }
}

/// The cross product of the segment's direction with the direction from its
/// first point to `p`: zero exactly when `p` lies on the segment's line.
pub open spec fn seg_cross(sg: LSeg, p: Vec2) -> int {
    (sg.b.x - sg.a.x) * (p.y - sg.a.y) - (sg.b.y - sg.a.y) * (p.x - sg.a.x)
}

/// True when `p` lies on the segment: on its line, and within the bounding
/// box of its endpoints.
pub open spec fn seg_contains(sg: LSeg, p: Vec2) -> bool {
    &&& seg_cross(sg, p) == 0
    &&& min_m(sg.a.x as int, sg.b.x as int) <= p.x <= max_m(sg.a.x as int, sg.b.x as int)
    &&& min_m(sg.a.y as int, sg.b.y as int) <= p.y <= max_m(sg.a.y as int, sg.b.y as int)
}

/// True when the segments intersect: their endpoints lie on strictly
/// opposite sides of each other's lines, or an endpoint of one lies on the
/// other.
pub open spec fn seg_hits(p: LSeg, q: LSeg) -> bool {
    let a1 = sign_m(seg_cross(p, q.a));
    let a2 = sign_m(seg_cross(p, q.b));
    let b1 = sign_m(seg_cross(q, p.a));
    let b2 = sign_m(seg_cross(q, p.b));
    (a1 != a2 && b1 != b2) || seg_contains(p, q.a) || seg_contains(p, q.b)
}

/// The sign of a 64-bit integer.
fn sign64(v: i64) -> (r: i32)
    ensures
        r as int == sign_m(v as int),
{
    if v > 0 {
        1
    } else if v < 0 {
        -1
    } else {
        0
    }
}

impl LSeg {
    /// Returns a new line segment with the given endpoints.
    pub fn new(a: Vec2, b: Vec2) -> (r: Self)
        ensures
            r.a == a,
            r.b == b,
    {
        LSeg { a, b }
    }

    /// Returns a new line segment with the given endpoint coordinates.
    pub fn new_xy(ax: i32, ay: i32, bx: i32, by: i32) -> (r: Self)
        ensures
            r.a == (Vec2 { x: ax, y: ay }),
            r.b == (Vec2 { x: bx, y: by }),
    {
        LSeg { a: Vec2 { x: ax, y: ay }, b: Vec2 { x: bx, y: by } }
    }

    /// Returns true if the point lies on the segment, else false.
    pub fn contains(&self, p: Vec2) -> (r: bool)
        requires
            -POS_LIMIT <= self.a.x <= POS_LIMIT,
            -POS_LIMIT <= self.a.y <= POS_LIMIT,
            -POS_LIMIT <= self.b.x <= POS_LIMIT,
            -POS_LIMIT <= self.b.y <= POS_LIMIT,
            -POS_LIMIT <= p.x <= POS_LIMIT,
            -POS_LIMIT <= p.y <= POS_LIMIT,
        ensures
            r == seg_contains(*self, p),
    {
        let d = self.b.minus(self.a);
        let e = p.minus(self.a);
        if d.cross(e) != 0 {
            return false;
        }

        let within_x = p.x >= (if self.a.x <= self.b.x {
            self.a.x
        } else {
            self.b.x
        }) && p.x <= (if self.a.x >= self.b.x {
            self.a.x
        } else {
            self.b.x
        });
        let within_y = p.y >= (if self.a.y <= self.b.y {
            self.a.y
        } else {
            self.b.y
        }) && p.y <= (if self.a.y >= self.b.y {
            self.a.y
        } else {
            self.b.y
        });
        within_x && within_y
    }

    /// Returns true if the segments intersect, else false: endpoints on
    /// strictly opposite sides of each other's lines, or an endpoint of one
    /// on the other segment.
    pub fn hits(&self, other: &Self) -> (r: bool)
        requires
            -POS_LIMIT <= self.a.x <= POS_LIMIT,
            -POS_LIMIT <= self.a.y <= POS_LIMIT,
            -POS_LIMIT <= self.b.x <= POS_LIMIT,
            -POS_LIMIT <= self.b.y <= POS_LIMIT,
            -POS_LIMIT <= other.a.x <= POS_LIMIT,
            -POS_LIMIT <= other.a.y <= POS_LIMIT,
            -POS_LIMIT <= other.b.x <= POS_LIMIT,
            -POS_LIMIT <= other.b.y <= POS_LIMIT,
        ensures
            r == seg_hits(*self, *other),
    {
        let d = self.b.minus(self.a);
        let a1 = sign64(d.cross(other.a.minus(self.a)));
        let a2 = sign64(d.cross(other.b.minus(self.a)));
        let e = other.b.minus(other.a);
        let b1 = sign64(e.cross(self.a.minus(other.a)));
        let b2 = sign64(e.cross(self.b.minus(other.a)));
        if a1 != a2 && b1 != b2 {
            return true;
        }

        self.contains(other.a) || self.contains(other.b)
    }
}

} // verus!
