use vstd::prelude::*;
use crate::config::POS_LIMIT;

verus! {

/// A 2D integer vector, used for positions and velocities.
#[derive(Clone, Copy, PartialEq, Eq, Structural, Debug)]
pub struct Vec2 {
    pub x: i32,
    pub y: i32,
}

/// Cross product of two vectors, as a mathematical integer.
pub open spec fn cross_m(p: Vec2, q: Vec2) -> int {
    p.x * q.y - p.y * q.x
}

/// Dot product of two vectors, as a mathematical integer.
pub open spec fn dot_m(p: Vec2, q: Vec2) -> int {
    p.x * q.x + p.y * q.y
}

/// Squared distance between two points, as a mathematical integer.
pub open spec fn dst_sqr_m(p: Vec2, q: Vec2) -> int {
    (p.x - q.x) * (p.x - q.x) + (p.y - q.y) * (p.y - q.y)
}

impl Vec2 {
    /// Returns a new vector with the given x and y coordinates.
    pub fn new(x: i32, y: i32) -> (r: Self)
        ensures
            r.x == x,
            r.y == y,
    {
        Vec2 { x, y }
    }

    /// Returns a new vector with zero x and y.
    pub fn zero() -> (r: Self)
        ensures
            r.x == 0,
            r.y == 0,
    {
        Vec2 { x: 0, y: 0 }
    }

    /// Componentwise difference of the two vectors.
    pub fn minus(self, other: Self) -> (r: Self)
        requires
            -4 * POS_LIMIT <= self.x <= 4 * POS_LIMIT,
            -4 * POS_LIMIT <= self.y <= 4 * POS_LIMIT,
            -4 * POS_LIMIT <= other.x <= 4 * POS_LIMIT,
            -4 * POS_LIMIT <= other.y <= 4 * POS_LIMIT,
        ensures
            r.x == self.x - other.x,
            r.y == self.y - other.y,
    {
        Vec2 { x: self.x - other.x, y: self.y - other.y }
    }

    /// Returns the cross product of the vectors (`self` x `other`), exactly.
    pub fn cross(self, other: Self) -> (r: i64)
        requires
            -4 * POS_LIMIT <= self.x <= 4 * POS_LIMIT,
            -4 * POS_LIMIT <= self.y <= 4 * POS_LIMIT,
            -4 * POS_LIMIT <= other.x <= 4 * POS_LIMIT,
            -4 * POS_LIMIT <= other.y <= 4 * POS_LIMIT,
        ensures
            r == cross_m(self, other),
    {
        let ax = self.x as i64;
        let ay = self.y as i64;
        let bx = other.x as i64;
        let by = other.y as i64;
        proof {
            assert(POS_LIMIT == 1000000);
            assert(-16000000000000 <= (ax as int) * (by as int) <= 16000000000000) by {
                lemma_mul_bound(ax as int, by as int, 4000000);
            }
            assert(-16000000000000 <= (ay as int) * (bx as int) <= 16000000000000) by {
                lemma_mul_bound(ay as int, bx as int, 4000000);
            }
        }
        ax * by - ay * bx
    }

    /// Returns the dot product of the two vectors, exactly.
    pub fn dot(self, other: Self) -> (r: i64)
        requires
            -4 * POS_LIMIT <= self.x <= 4 * POS_LIMIT,
            -4 * POS_LIMIT <= self.y <= 4 * POS_LIMIT,
            -4 * POS_LIMIT <= other.x <= 4 * POS_LIMIT,
            -4 * POS_LIMIT <= other.y <= 4 * POS_LIMIT,
        ensures
            r == dot_m(self, other),
    {
        let ax = self.x as i64;
        let ay = self.y as i64;
        let bx = other.x as i64;
        let by = other.y as i64;
        proof {
            assert(POS_LIMIT == 1000000);
            assert(-16000000000000 <= (ax as int) * (bx as int) <= 16000000000000) by {
                lemma_mul_bound(ax as int, bx as int, 4000000);
            }
            assert(-16000000000000 <= (ay as int) * (by as int) <= 16000000000000) by {
                lemma_mul_bound(ay as int, by as int, 4000000);
            }
        }
        ax * bx + ay * by
    }

    /// Returns the squared distance between the two points.
    pub fn dst_to_sqr(self, other: Self) -> (r: i64)
        requires
            -4 * POS_LIMIT <= self.x <= 4 * POS_LIMIT,
            -4 * POS_LIMIT <= self.y <= 4 * POS_LIMIT,
            -4 * POS_LIMIT <= other.x <= 4 * POS_LIMIT,
            -4 * POS_LIMIT <= other.y <= 4 * POS_LIMIT,
        ensures
            r == dst_sqr_m(self, other),
    {
        let dx = (self.x as i64) - (other.x as i64);
        let dy = (self.y as i64) - (other.y as i64);
        proof {
            assert(POS_LIMIT == 1000000);
            assert(-64000000000000 <= (dx as int) * (dx as int) <= 64000000000000) by {
                lemma_mul_bound(dx as int, dx as int, 8000000);
            }
            assert(-64000000000000 <= (dy as int) * (dy as int) <= 64000000000000) by {
                lemma_mul_bound(dy as int, dy as int, 8000000);
            }
        }
        dx * dx + dy * dy
    }

    /// Returns the squared magnitude of the vector.
    pub fn mag_sqr(self) -> (r: i64)
        requires
            -4 * POS_LIMIT <= self.x <= 4 * POS_LIMIT,
            -4 * POS_LIMIT <= self.y <= 4 * POS_LIMIT,
        ensures
            r == dot_m(self, self),
    {
        let ax = self.x as i64;
        let ay = self.y as i64;
        proof {
            assert(POS_LIMIT == 1000000);
            assert(-16000000000000 <= (ax as int) * (ax as int) <= 16000000000000) by {
                lemma_mul_bound(ax as int, ax as int, 4000000);
            }
            assert(-16000000000000 <= (ay as int) * (ay as int) <= 16000000000000) by {
                lemma_mul_bound(ay as int, ay as int, 4000000);
            }
        }
        ax * ax + ay * ay
    }
}

/// The smaller of two integers.
pub open spec fn min_m(a: int, b: int) -> int {
    if a <= b {
        a
    } else {
        b
    }
}

/// The larger of two integers.
pub open spec fn max_m(a: int, b: int) -> int {
    if a >= b {
        a
    } else {
        b
    }
}

/// A product of two factors bounded by `m` in magnitude is bounded by `m * m`.
pub proof fn lemma_mul_bound(a: int, b: int, m: int)
    by (nonlinear_arith)
    requires
        -m <= a <= m,
        -m <= b <= m,
        0 <= m,
    ensures
        -m * m <= a * b <= m * m,
{
}

/// An axis-aligned square, the body shape of every moving entity.
/// `x`/`y` are the top-left corner and `s` the side length.
#[derive(Clone, Copy, PartialEq, Eq, Structural, Debug)]
pub struct Square {
    pub x: i32,
    pub y: i32,
    pub s: i32,
}

/// Non-strict overlap of two squares: touching edges count as overlapping.
/// This is the test used between entity bodies.
pub open spec fn sq_overlap(p: Square, q: Square) -> bool {
    &&& p.x <= q.x + q.s
    &&& p.x + p.s >= q.x
    &&& p.y <= q.y + q.s
    &&& p.y + p.s >= q.y
}

impl Square {
    /// Returns a new square with the given position and side length.
    pub fn new(x: i32, y: i32, s: i32) -> (r: Self)
        ensures
            r.x == x,
            r.y == y,
            r.s == s,
    {
        Square { x, y, s }
    }

    /// Returns the square's center point (components rounded toward zero).
    pub fn center(&self) -> (r: Vec2)
        requires
            -4 * POS_LIMIT <= self.x <= 4 * POS_LIMIT,
            -4 * POS_LIMIT <= self.y <= 4 * POS_LIMIT,
            0 < self.s <= 4 * POS_LIMIT,
        ensures
            r.x == self.x + self.s / 2,
            r.y == self.y + self.s / 2,
    {
        let half = self.s / 2;
        Vec2 { x: self.x + half, y: self.y + half }
    }

    /// Returns true if the squares overlap, edge contact included.
    pub fn collides_with(&self, other: &Self) -> (r: bool)
        requires
            -4 * POS_LIMIT <= self.x <= 4 * POS_LIMIT,
            -4 * POS_LIMIT <= self.y <= 4 * POS_LIMIT,
            0 <= self.s <= 4 * POS_LIMIT,
            -4 * POS_LIMIT <= other.x <= 4 * POS_LIMIT,
            -4 * POS_LIMIT <= other.y <= 4 * POS_LIMIT,
            0 <= other.s <= 4 * POS_LIMIT,
        ensures
            r == sq_overlap(*self, *other),
    {
        self.x <= other.x + other.s && self.x + self.s >= other.x && self.y <= other.y + other.s
            && self.y + self.s >= other.y
    }
}

/// Overlap between entity bodies is symmetric: whichever of the two squares
/// asks whether it collides with the other, the answer is the same.
pub proof fn lemma_square_overlap_symmetric(p: Square, q: Square)
    ensures
        sq_overlap(p, q) == sq_overlap(q, p),
{
}

/// An axis-aligned bounding box in min/max form, the shape of every static
/// tile. `x`/`y` are the minimum corner and `a`/`b` the maximum corner.
#[derive(Clone, Copy, PartialEq, Eq, Structural, Debug)]
pub struct BBox {
    pub x: i32,
    pub y: i32,
    pub a: i32,
    pub b: i32,
}

/// Strict overlap between a box and a square placed at `(x, y)` with side
/// `s`: touching edges do not count, the overlap must be positive on both
/// axes. This is the test used between tiles and entity bodies.
pub open spec fn box_overlap_at(bx: BBox, x: int, y: int, s: int) -> bool {
    &&& bx.x < x + s
    &&& bx.a > x
    &&& bx.y < y + s
    &&& bx.b > y
}

/// Half of `v`, rounded toward zero.
pub open spec fn half_toward_zero(v: int) -> int {
    if v >= 0 {
        v / 2
    } else {
        -((-v) / 2)
    }
}

/// A box is valid when its minimum corner is at or before its maximum corner.
pub open spec fn box_valid(bx: BBox) -> bool {
    bx.x <= bx.a && bx.y <= bx.b
}

impl BBox {
    /// Returns a new bounding box with the given minimum and maximum bounds.
    pub fn new(x: i32, y: i32, a: i32, b: i32) -> (r: Self)
        ensures
            r.x == x,
            r.y == y,
            r.a == a,
            r.b == b,
    {
        BBox { x, y, a, b }
    }

    /// Returns the box's center point (components rounded toward zero).
    pub fn center(&self) -> (r: Vec2)
        requires
            -4 * POS_LIMIT <= self.x <= 4 * POS_LIMIT,
            -4 * POS_LIMIT <= self.y <= 4 * POS_LIMIT,
            -4 * POS_LIMIT <= self.a <= 4 * POS_LIMIT,
            -4 * POS_LIMIT <= self.b <= 4 * POS_LIMIT,
        ensures
            r.x == half_toward_zero(self.x + self.a),
            r.y == half_toward_zero(self.y + self.b),
    {
        Vec2 { x: (self.x + self.a) / 2, y: (self.y + self.b) / 2 }
    }

    /// Returns true if the box and the square overlap strictly on both axes.
    pub fn collides_with_sqr(&self, other: &Square) -> (r: bool)
        requires
            -4 * POS_LIMIT <= other.x <= 4 * POS_LIMIT,
            -4 * POS_LIMIT <= other.y <= 4 * POS_LIMIT,
            0 <= other.s <= 4 * POS_LIMIT,
        ensures
            r == box_overlap_at(*self, other.x as int, other.y as int, other.s as int),
    {
        self.x < other.x + other.s && self.a > other.x && self.y < other.y + other.s
            && self.b > other.y
    }

    /// Returns, per axis, whether the square's extent on that axis lies fully
    /// within the box's extent. Used for play-field containment only.
    pub fn contains_sqr(&self, other: &Square) -> (r: (bool, bool))
        requires
            -4 * POS_LIMIT <= other.x <= 4 * POS_LIMIT,
            -4 * POS_LIMIT <= other.y <= 4 * POS_LIMIT,
            0 <= other.s <= 4 * POS_LIMIT,
        ensures
            r.0 == (self.x <= other.x && self.a >= other.x + other.s),
            r.1 == (self.y <= other.y && self.b >= other.y + other.s),
    {
        (
            self.x <= other.x && self.a >= other.x + other.s,
            self.y <= other.y && self.b >= other.y + other.s,
        )
    }
}

/// An axis-aligned rectangle with position and extent.
#[derive(Clone, Copy, PartialEq, Eq, Structural, Debug)]
pub struct Rect {
    pub x: i32,
    pub y: i32,
    pub w: i32,
    pub h: i32,
}

/// Strict overlap of two rectangles: touching edges do not count.
pub open spec fn rect_overlap(p: Rect, q: Rect) -> bool {
    &&& p.x < q.x + q.w
    &&& p.x + p.w > q.x
    &&& p.y < q.y + q.h
    &&& p.y + p.h > q.y
}

impl Rect {
    /// Returns a new rectangle with the given position and dimensions.
    pub fn new(x: i32, y: i32, w: i32, h: i32) -> (r: Self)
        ensures
            r.x == x,
            r.y == y,
            r.w == w,
            r.h == h,
    {
        Rect { x, y, w, h }
    }

    /// Returns the rectangle's center point (components rounded toward zero).
    pub fn center(&self) -> (r: Vec2)
        requires
            -4 * POS_LIMIT <= self.x <= 4 * POS_LIMIT,
            -4 * POS_LIMIT <= self.y <= 4 * POS_LIMIT,
            0 <= self.w <= 4 * POS_LIMIT,
            0 <= self.h <= 4 * POS_LIMIT,
        ensures
            r.x == self.x + self.w / 2,
            r.y == self.y + self.h / 2,
    {
        Vec2 { x: self.x + self.w / 2, y: self.y + self.h / 2 }
    }

    /// Returns true if the rectangles overlap strictly on both axes.
    pub fn do_collide(&self, other: &Self) -> (r: bool)
        requires
            -4 * POS_LIMIT <= self.x <= 4 * POS_LIMIT,
            -4 * POS_LIMIT <= self.y <= 4 * POS_LIMIT,
            0 <= self.w <= 4 * POS_LIMIT,
            0 <= self.h <= 4 * POS_LIMIT,
            -4 * POS_LIMIT <= other.x <= 4 * POS_LIMIT,
            -4 * POS_LIMIT <= other.y <= 4 * POS_LIMIT,
            0 <= other.w <= 4 * POS_LIMIT,
            0 <= other.h <= 4 * POS_LIMIT,
        ensures
            r == rect_overlap(*self, *other),
    {
        self.x < other.x + other.w && self.x + self.w > other.x && self.y < other.y + other.h
            && self.y + self.h > other.y
    }
}

/// Overlap between rectangles is symmetric.
pub proof fn lemma_rect_overlap_symmetric(p: Rect, q: Rect)
    ensures
        rect_overlap(p, q) == rect_overlap(q, p),
{
}

} // verus!
