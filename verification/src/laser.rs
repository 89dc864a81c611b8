use vstd::prelude::*;
use crate::config::{POS_LIMIT, WIN_H, WIN_W};
use crate::geometry::{max_m, min_m, BBox, Square, Vec2};
use crate::tile::TileID;

verus! {

/// The timer value of a freshly triggered laser.
pub const LASER_FULL_LIFE: u8 = 255;

/// How much of the timer one tick burns.
pub const LASER_DECAY_STEP: u8 = 15;

/// A cardinal shooting direction.
#[derive(Clone, Copy, PartialEq, Eq, Structural, Debug)]
pub enum Direction {
    Left,
    Right,
    Up,
    Down,
}

/// The player's hit-scan weapon: a directional ray from `beg` to `end`,
/// active while its timer `time` is nonzero. The endpoint is clipped against
/// the level geometry when the laser is triggered and never changes
/// afterwards.
#[derive(Clone, Copy, PartialEq, Eq, Structural, Debug)]
pub struct Laser {
    /// The ray's origin.
    pub beg: Vec2,
    /// The ray's clipped endpoint.
    pub end: Vec2,
    /// Remaining life: the laser is active while this is nonzero.
    pub time: u8,
}

/// Where an unobstructed ray from `beg` in direction `dir` ends: at the play
/// field's edge, on the axis the ray travels.
pub open spec fn ray_to_edge(bx: int, by: int, dir: Direction) -> (int, int) {
    match dir {
        Direction::Left => (0, by),
        Direction::Right => (WIN_W as int, by),
        Direction::Up => (bx, 0),
        Direction::Down => (bx, WIN_H as int),
    }
}

/// True when tile bound `b` stands in the way of a ray from `beg` in
/// direction `dir`: its span on the cross axis covers the origin's
/// coordinate (ends included) and it lies strictly ahead of the origin.
pub open spec fn ray_blocked_by(bx: int, by: int, dir: Direction, b: BBox) -> bool {
    match dir {
        Direction::Left => b.y <= by <= b.b && b.a < bx,
        Direction::Right => b.y <= by <= b.b && b.x > bx,
        Direction::Up => b.x <= bx <= b.a && b.b < by,
        Direction::Down => b.x <= bx <= b.a && b.y > by,
    }
}

/// Shortens the candidate endpoint `p` so the ray stops at the facing edge
/// of `b`, when `b` blocks the ray.
pub open spec fn clip_step(bx: int, by: int, dir: Direction, p: (int, int), b: BBox) -> (int, int) {
    if ray_blocked_by(bx, by, dir, b) {
        match dir {
            Direction::Left => (max_m(p.0, b.a as int), p.1),
            Direction::Right => (min_m(p.0, b.x as int), p.1),
            Direction::Up => (p.0, max_m(p.1, b.b as int)),
            Direction::Down => (p.0, min_m(p.1, b.y as int)),
        }
    } else {
        p
    }
}

/// The ray endpoint after clipping against the first `n` tiles.
pub open spec fn clip_upto(bx: int, by: int, dir: Direction, tiles: Seq<(BBox, TileID)>, n: int) -> (
    int,
    int,
)
    decreases n,
{
    if n <= 0 {
        ray_to_edge(bx, by, dir)
    } else {
        clip_step(bx, by, dir, clip_upto(bx, by, dir, tiles, n - 1), tiles[n - 1].0)
    }
}

/// The endpoint of a ray from `beg` in direction `dir`, cast to the play
/// field's edge and clipped by every tile that blocks it. Every tile blocks
/// the ray, whatever its identity.
pub open spec fn laser_end(bx: int, by: int, dir: Direction, tiles: Seq<(BBox, TileID)>) -> (
    int,
    int,
) {
    clip_upto(bx, by, dir, tiles, tiles.len() as int)
}

/// The facing edge of a tile for a ray in direction `dir`: the coordinate
/// the ray must stop at when the tile blocks it.
pub open spec fn facing_edge(dir: Direction, b: BBox) -> int {
    match dir {
        Direction::Left => b.a as int,
        Direction::Right => b.x as int,
        Direction::Up => b.b as int,
        Direction::Down => b.y as int,
    }
}

/// The coordinate a ray in direction `dir` travels along, of an endpoint.
pub open spec fn moving_coord(dir: Direction, p: (int, int)) -> int {
    match dir {
        Direction::Left => p.0,
        Direction::Right => p.0,
        Direction::Up => p.1,
        Direction::Down => p.1,
    }
}

/// True when coordinate `m` has not passed `e` for a ray in direction `dir`.
pub open spec fn stops_short(dir: Direction, m: int, e: int) -> bool {
    match dir {
        Direction::Left => m >= e,
        Direction::Right => m <= e,
        Direction::Up => m >= e,
        Direction::Down => m <= e,
    }
}

proof fn lemma_clip_upto_nearest(
    bx: int,
    by: int,
    dir: Direction,
    tiles: Seq<(BBox, TileID)>,
    n: int,
)
    requires
        0 <= n <= tiles.len(),
    ensures
        ({
            let p = clip_upto(bx, by, dir, tiles, n);
            &&& moving_coord(dir, p) != moving_coord(dir, ray_to_edge(bx, by, dir)) ==> exists|
                i: int,
            |
                0 <= i < n && ray_blocked_by(bx, by, dir, (#[trigger] tiles[i]).0) && moving_coord(
                    dir,
                    p,
                ) == facing_edge(dir, tiles[i].0)
            &&& forall|i: int|
                0 <= i < n && ray_blocked_by(bx, by, dir, (#[trigger] tiles[i]).0) ==> stops_short(
                    dir,
                    moving_coord(dir, p),
                    facing_edge(dir, tiles[i].0),
                )
            &&& ((dir is Left || dir is Right) ==> p.1 == by)
            &&& ((dir is Up || dir is Down) ==> p.0 == bx)
        }),
    decreases n,
{
    if n > 0 {
        lemma_clip_upto_nearest(bx, by, dir, tiles, n - 1);
        let prev = clip_upto(bx, by, dir, tiles, n - 1);
        let p = clip_upto(bx, by, dir, tiles, n);
        let b = tiles[n - 1].0;
        if ray_blocked_by(bx, by, dir, b) && moving_coord(dir, p) == facing_edge(dir, b) {
            assert(0 <= n - 1 < n && ray_blocked_by(bx, by, dir, tiles[n - 1].0) && moving_coord(
                dir,
                p,
            ) == facing_edge(dir, tiles[n - 1].0));
        }
    }
}

/// A ray never passes any tile that blocks it, and its endpoint is either
/// the play field's edge or exactly the facing edge of some blocking tile.
/// On the cross axis the endpoint keeps the origin's coordinate.
pub proof fn lemma_laser_end_nearest_block(
    bx: int,
    by: int,
    dir: Direction,
    tiles: Seq<(BBox, TileID)>,
)
    ensures
        ({
            let p = laser_end(bx, by, dir, tiles);
            &&& forall|i: int|
                0 <= i < tiles.len() && ray_blocked_by(bx, by, dir, (#[trigger] tiles[i]).0)
                    ==> stops_short(dir, moving_coord(dir, p), facing_edge(dir, tiles[i].0))
            &&& moving_coord(dir, p) == moving_coord(dir, ray_to_edge(bx, by, dir)) || exists|
                i: int,
            |
                0 <= i < tiles.len() && ray_blocked_by(bx, by, dir, (#[trigger] tiles[i]).0)
                    && moving_coord(dir, p) == facing_edge(dir, tiles[i].0)
            &&& ((dir is Left || dir is Right) ==> p.1 == by)
            &&& ((dir is Up || dir is Down) ==> p.0 == bx)
        }),
{
    lemma_clip_upto_nearest(bx, by, dir, tiles, tiles.len() as int);
}

/// The laser's coordinates are small enough for the overlap arithmetic.
pub open spec fn laser_in_range(l: Laser) -> bool {
    &&& -4 * POS_LIMIT <= l.beg.x <= 4 * POS_LIMIT
    &&& -4 * POS_LIMIT <= l.beg.y <= 4 * POS_LIMIT
    &&& -4 * POS_LIMIT <= l.end.x <= 4 * POS_LIMIT
    &&& -4 * POS_LIMIT <= l.end.y <= 4 * POS_LIMIT
}

proof fn lemma_clip_upto_in_field(
    bx: int,
    by: int,
    dir: Direction,
    tiles: Seq<(BBox, TileID)>,
    n: int,
)
    requires
        crate::entity::tiles_wf(tiles),
        0 <= n <= tiles.len(),
    ensures
        ({
            let p = clip_upto(bx, by, dir, tiles, n);
            &&& ((dir is Left || dir is Right) ==> 0 <= p.0 <= WIN_W && p.1 == by)
            &&& ((dir is Up || dir is Down) ==> 0 <= p.1 <= WIN_H && p.0 == bx)
        }),
    decreases n,
{
    if n > 0 {
        lemma_clip_upto_in_field(bx, by, dir, tiles, n - 1);
        assert(0 <= tiles[n - 1].0.x <= tiles[n - 1].0.a <= WIN_W && 0 <= tiles[n - 1].0.y <= tiles[
            n - 1].0.b <= WIN_H);
    }
}

/// A clipped ray stays inside the play field on the axis it travels, and
/// keeps its origin's coordinate on the cross axis, whenever the level's
/// tiles lie in the field.
pub proof fn lemma_laser_end_in_field(bx: int, by: int, dir: Direction, tiles: Seq<(BBox, TileID)>)
    requires
        crate::entity::tiles_wf(tiles),
    ensures
        ({
            let p = laser_end(bx, by, dir, tiles);
            &&& ((dir is Left || dir is Right) ==> 0 <= p.0 <= WIN_W && p.1 == by)
            &&& ((dir is Up || dir is Down) ==> 0 <= p.1 <= WIN_H && p.0 == bx)
        }),
{
    lemma_clip_upto_in_field(bx, by, dir, tiles, tiles.len() as int);
}

/// Whether an active laser registers a hit on square `q`: its bounding
/// rectangle (of origin and endpoint, on both axes) overlaps the square,
/// edges included. Rays are axis-aligned, so the bounding rectangle is the
/// ray itself.
pub open spec fn laser_hits_at(l: Laser, x: int, y: int, s: int) -> bool {
    &&& l.time > 0
    &&& min_m(l.beg.x as int, l.end.x as int) <= x + s
    &&& max_m(l.beg.x as int, l.end.x as int) >= x
    &&& min_m(l.beg.y as int, l.end.y as int) <= y + s
    &&& max_m(l.beg.y as int, l.end.y as int) >= y
}

/// Whether an active laser registers a hit on square `q`.
pub open spec fn laser_hits(l: Laser, q: Square) -> bool {
    laser_hits_at(l, q.x as int, q.y as int, q.s as int)
}

/// One tick of timer decay: down by the fixed step, floored at zero.
pub open spec fn decayed(t: int) -> int {
    if t >= LASER_DECAY_STEP {
        t - LASER_DECAY_STEP
    } else {
        0
    }
}

/// The timer after `n` ticks of decay.
pub open spec fn decayed_after(t: int, n: nat) -> int
    decreases n,
{
    if n == 0 {
        t
    } else {
        decayed(decayed_after(t, (n - 1) as nat))
    }
}

/// A laser timer decays to exactly zero, never past it: after `n` ticks it
/// still holds `t - n * step` while that is positive, and it is zero as soon
/// as `n * step` reaches `t`. So a fresh timer `t` is exhausted after
/// exactly the least `n` with `n * step >= t`.
pub proof fn lemma_laser_decay(t: int, n: nat)
    requires
        0 <= t,
    ensures
        0 <= decayed_after(t, n) <= t,
        n * LASER_DECAY_STEP >= t ==> decayed_after(t, n) == 0,
        t - n * LASER_DECAY_STEP > 0 ==> decayed_after(t, n) == t - n * LASER_DECAY_STEP,
    decreases n,
{
    if n > 0 {
        lemma_laser_decay(t, (n - 1) as nat);
        assert(n * LASER_DECAY_STEP == (n - 1) * LASER_DECAY_STEP + LASER_DECAY_STEP)
            by (nonlinear_arith);
    }
}

impl Laser {
    /// Returns a new laser from the given origin in the given direction,
    /// with a full timer and its endpoint clipped against the level
    /// geometry.
    pub fn new(beg: Vec2, dir: Direction, tiles: &Vec<(BBox, TileID)>) -> (r: Self)
        ensures
            r.beg == beg,
            r.time == LASER_FULL_LIFE,
            r.end.x as int == laser_end(beg.x as int, beg.y as int, dir, tiles@).0,
            r.end.y as int == laser_end(beg.x as int, beg.y as int, dir, tiles@).1,
    {
        Laser { beg, end: Self::get_laser_end(beg, dir, tiles), time: LASER_FULL_LIFE }
    }

    /// Returns an inactive laser.
    pub fn new_inactive() -> (r: Self)
        ensures
            r.time == 0,
            r.beg.x == 0,
            r.beg.y == 0,
            r.end.x == 0,
            r.end.y == 0,
    {
        Laser { beg: Vec2 { x: 0, y: 0 }, end: Vec2 { x: 0, y: 0 }, time: 0 }
    }

    /// True if the laser is active and its bounding rectangle overlaps the
    /// given square.
    pub fn hits_square(&self, sqr: &Square) -> (r: bool)
        requires
            -4 * POS_LIMIT <= self.beg.x <= 4 * POS_LIMIT,
            -4 * POS_LIMIT <= self.beg.y <= 4 * POS_LIMIT,
            -4 * POS_LIMIT <= self.end.x <= 4 * POS_LIMIT,
            -4 * POS_LIMIT <= self.end.y <= 4 * POS_LIMIT,
            -4 * POS_LIMIT <= sqr.x <= 4 * POS_LIMIT,
            -4 * POS_LIMIT <= sqr.y <= 4 * POS_LIMIT,
            0 <= sqr.s <= 4 * POS_LIMIT,
        ensures
            r == laser_hits(*self, *sqr),
    {
        let min_x = if self.beg.x <= self.end.x {
            self.beg.x
        } else {
            self.end.x
        };
        let max_x = if self.beg.x >= self.end.x {
            self.beg.x
        } else {
            self.end.x
        };
        let min_y = if self.beg.y <= self.end.y {
            self.beg.y
        } else {
            self.end.y
        };
        let max_y = if self.beg.y >= self.end.y {
            self.beg.y
        } else {
            self.end.y
        };
        self.time > 0 && min_x <= sqr.x + sqr.s && max_x >= sqr.x && min_y <= sqr.y + sqr.s
            && max_y >= sqr.y
    }

    /// True while the laser's timer is not exhausted.
    pub fn is_active(&self) -> (r: bool)
        ensures
            r == (self.time != 0),
    {
        self.time != 0
    }

    /// Burns one tick of the timer, floored at zero.
    pub fn update(&mut self)
        ensures
            final(self).time as int == decayed(old(self).time as int),
            final(self).beg == old(self).beg,
            final(self).end == old(self).end,
    {
        if self.time >= LASER_DECAY_STEP {
            self.time = self.time - LASER_DECAY_STEP;
        } else {
            self.time = 0;
        }
    }

    /// Casts a ray from `beg` in direction `dir` to the play field's edge,
    /// then shortens it to the facing edge of every tile that blocks it.
    #[verifier::loop_isolation(false)]
    fn get_laser_end(beg: Vec2, dir: Direction, tiles: &Vec<(BBox, TileID)>) -> (r: Vec2)
        ensures
            r.x as int == laser_end(beg.x as int, beg.y as int, dir, tiles@).0,
            r.y as int == laser_end(beg.x as int, beg.y as int, dir, tiles@).1,
    {
        let mut rx: i32;
        let mut ry: i32;
        match dir {
            Direction::Left => {
                rx = 0;
                ry = beg.y;
            },
            Direction::Right => {
                rx = WIN_W;
                ry = beg.y;
            },
            Direction::Up => {
                rx = beg.x;
                ry = 0;
            },
            Direction::Down => {
                rx = beg.x;
                ry = WIN_H;
            },
        }

        let n = tiles.len();
        let mut i: usize = 0;
        while i < n
            invariant
                i <= n,
                rx as int == clip_upto(beg.x as int, beg.y as int, dir, tiles@, i as int).0,
                ry as int == clip_upto(beg.x as int, beg.y as int, dir, tiles@, i as int).1,
            decreases n - i,
        {
            let (b, _t) = tiles[i];
            match dir {
                Direction::Left => {
                    if b.y <= beg.y && beg.y <= b.b && b.a < beg.x {
                        if b.a > rx {
                            rx = b.a;
                        }
                    }
                },
                Direction::Right => {
                    if b.y <= beg.y && beg.y <= b.b && b.x > beg.x {
                        if b.x < rx {
                            rx = b.x;
                        }
                    }
                },
                Direction::Up => {
                    if b.x <= beg.x && beg.x <= b.a && b.b < beg.y {
                        if b.b > ry {
                            ry = b.b;
                        }
                    }
                },
                Direction::Down => {
                    if b.x <= beg.x && beg.x <= b.a && b.y > beg.y {
                        if b.y < ry {
                            ry = b.y;
                        }
                    }
                },
            }
            proof {
                assert(clip_upto(beg.x as int, beg.y as int, dir, tiles@, i + 1) == clip_step(
                    beg.x as int,
                    beg.y as int,
                    dir,
                    clip_upto(beg.x as int, beg.y as int, dir, tiles@, i as int),
                    tiles@[i as int].0,
                ));
            }
            i = i + 1;
        }

        Vec2 { x: rx, y: ry }
    }
}

} // verus!
