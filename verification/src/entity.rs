use vstd::prelude::*;
use crate::config::{GRAVITY, POS_LIMIT, VEL_LIMIT, WIN_H, WIN_W};
use crate::geometry::{box_overlap_at, BBox, Square, Vec2};
use crate::tile::{tile_reaction, Color, TileID, PAD_V};

verus! {

/// Side length of a walker's body.
pub const WALKER_S: i32 = 560;

/// Horizontal speed of a walker.
pub const WALKER_VX: i32 = 152;

/// Side length of a jumper's body.
pub const JUMPER_S: i32 = 480;

/// Horizontal speed of a jumper.
pub const JUMPER_VX: i32 = 102;

/// Vertical velocity a jumper starts with.
pub const JUMPER_JMP_VY: i32 = -100;

/// The jumper's fixed rebound speed: what it re-launches upward with
/// whenever it stands grounded, and what a ceiling hit while rising snaps
/// its vertical velocity to.
pub const JUMPER_REBOUND_VY: i32 = -500;

/// Side length of a sitter's body.
pub const SITTER_S: i32 = 600;

/// The behavior variant of a movable body.
#[derive(Clone, Copy, PartialEq, Eq, Structural, Debug)]
pub enum EntityKind {
    /// The user-controlled avatar.
    Player,
    /// Patrols horizontally, falls under gravity, turns around at walls.
    Walker,
    /// Patrols horizontally and re-launches upward whenever it is grounded.
    Jumper,
    /// Sits still, unaffected by gravity; its motion hooks must never be
    /// invoked.
    Sitter,
}

/// The mathematical state of an entity: its variant, body square, velocity,
/// grounded flag and liveness.
pub ghost struct EntityModel {
    pub kind: EntityKind,
    pub x: int,
    pub y: int,
    pub s: int,
    pub vx: int,
    pub vy: int,
    pub on_ground: bool,
    pub alive: bool,
}

/// A movable body: the player or one of the hostile variants. Every entity
/// owns its body and velocity exclusively; the shared collision sweep and the
/// tile reactions act on it only through its hooks.
#[derive(Clone, Copy, PartialEq, Eq, Structural, Debug)]
pub struct Entity {
    pub kind: EntityKind,
    /// The entity's body.
    pub body: Square,
    /// The entity's velocity.
    pub v: Vec2,
    /// True after a landing or ladder contact in the latest sweep; cleared at
    /// the start of every sweep so walking off a ledge drops it immediately.
    pub on_ground: bool,
    /// One-way liveness flag: `kill` makes it false, nothing makes it true
    /// again.
    pub alive: bool,
}

impl View for Entity {
    type V = EntityModel;

    open spec fn view(&self) -> EntityModel {
        EntityModel {
            kind: self.kind,
            x: self.body.x as int,
            y: self.body.y as int,
            s: self.body.s as int,
            vx: self.v.x as int,
            vy: self.v.y as int,
            on_ground: self.on_ground,
            alive: self.alive,
        }
    }
}

/// The bounds within which the engine keeps every live entity: a positive
/// body no larger than the play field, a position at most one body length
/// outside it, and velocities no larger than the field. The collision sweep
/// re-establishes these every tick.
pub open spec fn entity_wf(e: EntityModel) -> bool {
    &&& 0 < e.s <= WIN_W
    &&& e.s <= WIN_H
    &&& -e.s <= e.x <= WIN_W
    &&& -e.s <= e.y <= WIN_H
    &&& -WIN_W <= e.vx <= WIN_W
    &&& -WIN_H <= e.vy <= WIN_H
}

/// Every tile of a level lies inside the play field with its minimum corner
/// at or before its maximum corner.
pub open spec fn tiles_wf(tiles: Seq<(BBox, TileID)>) -> bool {
    forall|i: int|
        0 <= i < tiles.len() ==> {
            let b = (#[trigger] tiles[i]).0;
            0 <= b.x <= b.a <= WIN_W && 0 <= b.y <= b.b <= WIN_H
        }
}

/// What a horizontal collision does to an entity's horizontal velocity:
/// the player stops, a walker or jumper turns around at its fixed speed.
/// Never invoked on a sitter.
pub open spec fn hook_col_x(kind: EntityKind, vx: int) -> int {
    match kind {
        EntityKind::Player => 0,
        EntityKind::Walker => if vx >= 0 {
            -WALKER_VX as int
        } else {
            WALKER_VX as int
        },
        EntityKind::Jumper => if vx >= 0 {
            -JUMPER_VX as int
        } else {
            JUMPER_VX as int
        },
        EntityKind::Sitter => vx,
    }
}

/// What a vertical collision does to an entity's vertical velocity: the
/// player and a walker stop; a jumper stops when it lands while falling and
/// snaps to its fixed rebound speed when it hits a ceiling while rising.
/// Never invoked on a sitter.
pub open spec fn hook_col_y(kind: EntityKind, vy: int) -> int {
    match kind {
        EntityKind::Player => 0,
        EntityKind::Walker => 0,
        EntityKind::Jumper => if vy >= 0 {
            0
        } else {
            JUMPER_REBOUND_VY as int
        },
        EntityKind::Sitter => vy,
    }
}

/// Clamps `v` into `[lo, hi]`.
pub open spec fn clamp_m(v: int, lo: int, hi: int) -> int {
    if v < lo {
        lo
    } else if v > hi {
        hi
    } else {
        v
    }
}

/// The tentative x position of one tick: position plus velocity, clamped to
/// the play field when it would leave it.
pub open spec fn tent_x(e: EntityModel) -> int {
    if in_field_x(e) {
        e.x + e.vx
    } else {
        clamp_m(e.x + e.vx, 0, WIN_W - e.s)
    }
}

/// The tentative y position of one tick, clamped like `tent_x`.
pub open spec fn tent_y(e: EntityModel) -> int {
    if in_field_y(e) {
        e.y + e.vy
    } else {
        clamp_m(e.y + e.vy, 0, WIN_H - e.s)
    }
}

/// True when the unclamped tentative position stays horizontally inside the
/// play field.
pub open spec fn in_field_x(e: EntityModel) -> bool {
    0 <= e.x + e.vx && e.x + e.vx + e.s <= WIN_W
}

/// True when the unclamped tentative position stays vertically inside the
/// play field.
pub open spec fn in_field_y(e: EntityModel) -> bool {
    0 <= e.y + e.vy && e.y + e.vy + e.s <= WIN_H
}

/// The running state of one collision sweep: the entity as its hooks and the
/// tile reactions have left it (its body still at the pre-sweep position),
/// the resolved tentative position, and how often each collision hook fired.
pub ghost struct SweepState {
    pub em: EntityModel,
    pub nx: int,
    pub ny: int,
    pub xh: nat,
    pub yh: nat,
}

/// The sweep before any tile is considered: the tentative position is
/// clamped to the play field (firing the matching collision hook when the
/// clamp bites), and the grounded flag is cleared so that a tick without
/// landing contact never keeps a stale flag.
pub open spec fn sweep_begin(e: EntityModel) -> SweepState {
    SweepState {
        em: EntityModel {
            vx: if in_field_x(e) {
                e.vx
            } else {
                hook_col_x(e.kind, e.vx)
            },
            vy: if in_field_y(e) {
                e.vy
            } else {
                hook_col_y(e.kind, e.vy)
            },
            on_ground: false,
            ..e
        },
        nx: tent_x(e),
        ny: tent_y(e),
        xh: if in_field_x(e) {
            0
        } else {
            1
        },
        yh: if in_field_y(e) {
            0
        } else {
            1
        },
    }
}

/// One tile of the sweep. The x axis is probed first, at the resolved x and
/// the pre-sweep y; on overlap the entity is snapped to the tile's near edge
/// on the side the pre-sweep velocity points away from, and the x hook
/// fires. The y axis is then probed at the already-resolved x; a landing
/// (falling onto the tile) grounds the entity. If either axis hit, the
/// tile's reaction runs last and may override velocity and grounded state.
pub open spec fn sweep_step(e0: EntityModel, st: SweepState, b: BBox, t: TileID) -> SweepState {
    let s = e0.s;
    let hx = box_overlap_at(b, st.nx, e0.y, s);
    let st1 = if hx {
        SweepState {
            em: EntityModel { vx: hook_col_x(st.em.kind, st.em.vx), ..st.em },
            nx: if e0.vx > 0 {
                b.x - s
            } else {
                b.a as int
            },
            xh: st.xh + 1,
            ..st
        }
    } else {
        st
    };
    let hy = box_overlap_at(b, st1.nx, st1.ny, s);
    let st2 = if hy {
        SweepState {
            em: EntityModel {
                vy: hook_col_y(st1.em.kind, st1.em.vy),
                on_ground: if e0.vy > 0 {
                    true
                } else {
                    st1.em.on_ground
                },
                ..st1.em
            },
            ny: if e0.vy > 0 {
                b.y - s
            } else {
                b.b as int
            },
            yh: st1.yh + 1,
            ..st1
        }
    } else {
        st1
    };
    if hx || hy {
        SweepState { em: tile_reaction(t, b, st2.em), ..st2 }
    } else {
        st2
    }
}

/// The sweep after the first `n` tiles of the level, in sequence order.
pub open spec fn sweep_upto(e: EntityModel, tiles: Seq<(BBox, TileID)>, n: int) -> SweepState
    decreases n,
{
    if n <= 0 {
        sweep_begin(e)
    } else {
        sweep_step(e, sweep_upto(e, tiles, n - 1), tiles[n - 1].0, tiles[n - 1].1)
    }
}

/// The entity after one full collision sweep against `tiles`: the state left
/// by all hooks and reactions, with the resolved position committed.
pub open spec fn sweep_model(e: EntityModel, tiles: Seq<(BBox, TileID)>) -> EntityModel {
    let st = sweep_upto(e, tiles, tiles.len() as int);
    EntityModel { x: st.nx, y: st.ny, ..st.em }
}

/// One tick of a hostile entity: a sitter never moves; a walker falls under
/// gravity; a jumper re-launches upward at its fixed rebound speed whenever
/// it is grounded and falls under gravity otherwise. Either then runs the
/// shared collision sweep.
pub open spec fn hostile_frame(e: EntityModel, tiles: Seq<(BBox, TileID)>) -> EntityModel {
    match e.kind {
        EntityKind::Sitter => e,
        EntityKind::Jumper => sweep_model(
            EntityModel {
                vy: if e.on_ground {
                    JUMPER_REBOUND_VY as int
                } else {
                    e.vy + GRAVITY
                },
                ..e
            },
            tiles,
        ),
        _ => sweep_model(EntityModel { vy: e.vy + GRAVITY, ..e }, tiles),
    }
}

/// Clamps `v` into `[lo, hi]`.
fn clamp_i32(v: i32, lo: i32, hi: i32) -> (r: i32)
    requires
        lo <= hi,
    ensures
        r == clamp_m(v as int, lo as int, hi as int),
{
    if v < lo {
        lo
    } else if v > hi {
        hi
    } else {
        v
    }
}

/// The state of a freshly spawned walker at the given position.
pub open spec fn walker_model(x: int, y: int) -> EntityModel {
    EntityModel {
        kind: EntityKind::Walker,
        x,
        y,
        s: WALKER_S as int,
        vx: WALKER_VX as int,
        vy: 0,
        on_ground: false,
        alive: true,
    }
}

/// The state of a freshly spawned jumper at the given position.
pub open spec fn jumper_model(x: int, y: int) -> EntityModel {
    EntityModel {
        kind: EntityKind::Jumper,
        x,
        y,
        s: JUMPER_S as int,
        vx: JUMPER_VX as int,
        vy: JUMPER_JMP_VY as int,
        on_ground: false,
        alive: true,
    }
}

/// The state of a freshly spawned sitter at the given position.
pub open spec fn sitter_model(x: int, y: int) -> EntityModel {
    EntityModel {
        kind: EntityKind::Sitter,
        x,
        y,
        s: SITTER_S as int,
        vx: 0,
        vy: 0,
        on_ground: false,
        alive: true,
    }
}

impl Entity {
    /// Returns a new walker at the given position.
    pub fn walker(x: i32, y: i32) -> (r: Self)
        ensures
            r@ == walker_model(x as int, y as int),
    {
        Entity {
            kind: EntityKind::Walker,
            body: Square { x, y, s: WALKER_S },
            v: Vec2 { x: WALKER_VX, y: 0 },
            on_ground: false,
            alive: true,
        }
    }

    /// Returns a new jumper at the given position.
    pub fn jumper(x: i32, y: i32) -> (r: Self)
        ensures
            r@ == jumper_model(x as int, y as int),
    {
        Entity {
            kind: EntityKind::Jumper,
            body: Square { x, y, s: JUMPER_S },
            v: Vec2 { x: JUMPER_VX, y: JUMPER_JMP_VY },
            on_ground: false,
            alive: true,
        }
    }

    /// Returns a new sitter at the given position.
    pub fn sitter(x: i32, y: i32) -> (r: Self)
        ensures
            r@ == sitter_model(x as int, y as int),
    {
        Entity {
            kind: EntityKind::Sitter,
            body: Square { x, y, s: SITTER_S },
            v: Vec2 { x: 0, y: 0 },
            on_ground: false,
            alive: true,
        }
    }

    /// Returns the entity's body.
    pub fn get_body(&self) -> (r: Square)
        ensures
            r == self.body,
    {
        self.body
    }

    /// Returns the entity's velocity. A sitter has none: asking for it is a
    /// caller bug, so the contract forbids it.
    pub fn get_v(&self) -> (r: Vec2)
        requires
            self@.kind != EntityKind::Sitter,
        ensures
            r == self.v,
    {
        self.v
    }

    /// Returns the entity's display color.
    pub fn get_color(&self) -> (c: Color)
        ensures
            c == entity_color(self@.kind),
    {
        match self.kind {
            EntityKind::Player => Color { r: 50, g: 150, b: 255, a: 255 },
            EntityKind::Walker => Color { r: 225, g: 50, b: 150, a: 255 },
            EntityKind::Jumper => Color { r: 255, g: 100, b: 50, a: 255 },
            EntityKind::Sitter => Color { r: 225, g: 150, b: 50, a: 255 },
        }
    }

    /// Returns true while the entity is alive.
    pub fn is_alive(&self) -> (r: bool)
        ensures
            r == self@.alive,
    {
        self.alive
    }

    /// Sets the entity's position.
    pub fn set_pos(&mut self, p: Vec2)
        ensures
            final(self)@ == (EntityModel { x: p.x as int, y: p.y as int, ..old(self)@ }),
    {
        self.body.x = p.x;
        self.body.y = p.y;
    }

    /// Sets the entity's horizontal velocity. Never legal on a sitter.
    pub fn set_vx(&mut self, v: i32)
        requires
            old(self)@.kind != EntityKind::Sitter,
        ensures
            final(self)@ == (EntityModel { vx: v as int, ..old(self)@ }),
    {
        self.v.x = v;
    }

    /// Sets the entity's vertical velocity. Never legal on a sitter.
    pub fn set_vy(&mut self, v: i32)
        requires
            old(self)@.kind != EntityKind::Sitter,
        ensures
            final(self)@ == (EntityModel { vy: v as int, ..old(self)@ }),
    {
        self.v.y = v;
    }

    /// Sets the entity's grounded flag.
    pub fn set_on_ground(&mut self, b: bool)
        ensures
            final(self)@ == (EntityModel { on_ground: b, ..old(self)@ }),
    {
        self.on_ground = b;
    }

    /// Kills the entity: a one-way transition out of liveness.
    pub fn kill(&mut self)
        ensures
            final(self)@ == (EntityModel { alive: false, ..old(self)@ }),
    {
        self.alive = false;
    }

    /// Reacts to a horizontal collision. Never legal on a sitter.
    pub fn on_col_x(&mut self)
        requires
            old(self)@.kind != EntityKind::Sitter,
        ensures
            final(self)@ == (EntityModel {
                vx: hook_col_x(old(self)@.kind, old(self)@.vx),
                ..old(self)@
            }),
    {
        match self.kind {
            EntityKind::Player => {
                self.v.x = 0;
            },
            EntityKind::Walker => {
                self.v.x = if self.v.x >= 0 {
                    -WALKER_VX
                } else {
                    WALKER_VX
                };
            },
            EntityKind::Jumper => {
                self.v.x = if self.v.x >= 0 {
                    -JUMPER_VX
                } else {
                    JUMPER_VX
                };
            },
            EntityKind::Sitter => {},
        }
    }

    /// Reacts to a vertical collision. Never legal on a sitter.
    pub fn on_col_y(&mut self)
        requires
            old(self)@.kind != EntityKind::Sitter,
        ensures
            final(self)@ == (EntityModel {
                vy: hook_col_y(old(self)@.kind, old(self)@.vy),
                ..old(self)@
            }),
    {
        match self.kind {
            EntityKind::Player => {
                self.v.y = 0;
            },
            EntityKind::Walker => {
                self.v.y = 0;
            },
            EntityKind::Jumper => {
                self.v.y = if self.v.y >= 0 {
                    0
                } else {
                    JUMPER_REBOUND_VY
                };
            },
            EntityKind::Sitter => {},
        }
    }

    /// Resolves one tick of motion against the level geometry: clamps the
    /// tentative position to the play field, then probes every tile in
    /// sequence order on the x axis and then the y axis, snapping to near
    /// edges, firing the collision hooks, and running the reactions of every
    /// tile that was hit. The result is exactly `sweep_model`.
    #[verifier::loop_isolation(false)]
    #[verifier::rlimit(100)]
    pub fn do_map_collision(&mut self, tiles: &Vec<(BBox, TileID)>)
        requires
            old(self)@.kind != EntityKind::Sitter,
            0 < old(self)@.s <= WIN_W,
            old(self)@.s <= WIN_H,
            -POS_LIMIT <= old(self)@.x <= POS_LIMIT,
            -POS_LIMIT <= old(self)@.y <= POS_LIMIT,
            -VEL_LIMIT <= old(self)@.vx <= VEL_LIMIT,
            -VEL_LIMIT <= old(self)@.vy <= VEL_LIMIT,
            tiles_wf(tiles@),
        ensures
            final(self)@ == sweep_model(old(self)@, tiles@),
    {
        let ghost e0 = self@;
        let s = self.body.s;
        let vx = self.v.x;
        let vy = self.v.y;
        let y0 = self.body.y;
        let mut nx = self.body.x + vx;
        let mut ny = y0 + vy;

        let win = BBox { x: 0, y: 0, a: WIN_W, b: WIN_H };
        let (in_x, in_y) = win.contains_sqr(&Square { x: nx, y: ny, s });
        if !in_x {
            nx = clamp_i32(nx, 0, WIN_W - s);
            self.on_col_x();
        }
        if !in_y {
            ny = clamp_i32(ny, 0, WIN_H - s);
            self.on_col_y();
        }
        self.set_on_ground(false);

        assert(self@ == sweep_begin(e0).em);
        assert(nx == sweep_begin(e0).nx);
        assert(ny == sweep_begin(e0).ny);

        let n = tiles.len();
        let mut i: usize = 0;
        while i < n
            invariant
                i <= n,
                -2 * POS_LIMIT <= nx <= 2 * POS_LIMIT,
                -2 * POS_LIMIT <= ny <= 2 * POS_LIMIT,
                self@ == sweep_upto(e0, tiles@, i as int).em,
                nx == sweep_upto(e0, tiles@, i as int).nx,
                ny == sweep_upto(e0, tiles@, i as int).ny,
                self@.kind == e0.kind,
                self@.x == e0.x,
                self@.y == e0.y,
                self@.s == e0.s,
            decreases n - i,
        {
            let ghost st_pre = sweep_upto(e0, tiles@, i as int);
            let (b, t) = tiles[i];
            let mut hit = false;

            let hx = b.collides_with_sqr(&Square { x: nx, y: y0, s });
            if hx {
                nx = if vx > 0 {
                    b.x - s
                } else {
                    b.a
                };
                self.on_col_x();
                hit = true;
            }
            let ghost st1 = if hx {
                SweepState {
                    em: EntityModel { vx: hook_col_x(st_pre.em.kind, st_pre.em.vx), ..st_pre.em },
                    nx: if e0.vx > 0 {
                        b.x - e0.s
                    } else {
                        b.a as int
                    },
                    xh: st_pre.xh + 1,
                    ..st_pre
                }
            } else {
                st_pre
            };
            assert(self@ == st1.em && nx == st1.nx && ny == st1.ny);

            let hy = b.collides_with_sqr(&Square { x: nx, y: ny, s });
            if hy {
                if vy > 0 {
                    ny = b.y - s;
                    self.set_on_ground(true);
                } else {
                    ny = b.b;
                }
                self.on_col_y();
                hit = true;
            }
            let ghost st2 = if hy {
                SweepState {
                    em: EntityModel {
                        vy: hook_col_y(st1.em.kind, st1.em.vy),
                        on_ground: if e0.vy > 0 {
                            true
                        } else {
                            st1.em.on_ground
                        },
                        ..st1.em
                    },
                    ny: if e0.vy > 0 {
                        b.y - e0.s
                    } else {
                        b.b as int
                    },
                    yh: st1.yh + 1,
                    ..st1
                }
            } else {
                st1
            };
            assert(self@ == st2.em && nx == st2.nx && ny == st2.ny);

            if hit {
                t.do_collision(&b, self);
            }

            proof {
                assert(hit == (hx || hy));
                assert(sweep_step(e0, st_pre, b, t) == if hx || hy {
                    SweepState { em: tile_reaction(t, b, st2.em), ..st2 }
                } else {
                    st2
                });
                assert(sweep_upto(e0, tiles@, i + 1) == sweep_step(
                    e0,
                    st_pre,
                    tiles@[i as int].0,
                    tiles@[i as int].1,
                ));
            }
            i = i + 1;
        }

        self.set_pos(Vec2 { x: nx, y: ny });
    }

    /// One tick of a hostile entity: a sitter stays exactly as it is; a
    /// walker gains gravity; a jumper re-launches upward when it stands
    /// grounded and gains gravity otherwise. Either then runs the collision
    /// sweep. The result is exactly `hostile_frame`, and a well-formed
    /// hostile stays well-formed.
    pub fn update(&mut self, tiles: &Vec<(BBox, TileID)>)
        requires
            old(self)@.kind != EntityKind::Player,
            entity_wf(old(self)@),
            tiles_wf(tiles@),
        ensures
            final(self)@ == hostile_frame(old(self)@, tiles@),
            entity_wf(final(self)@),
            final(self)@.kind == old(self)@.kind,
    {
        match self.kind {
            EntityKind::Sitter => {},
            EntityKind::Jumper => {
                self.v.y = if self.on_ground {
                    JUMPER_REBOUND_VY
                } else {
                    self.v.y + GRAVITY
                };
                let ghost mid = self@;
                self.do_map_collision(tiles);
                proof {
                    lemma_sweep_wf(mid, tiles@);
                }
            },
            _ => {
                self.v.y = self.v.y + GRAVITY;
                let ghost mid = self@;
                self.do_map_collision(tiles);
                proof {
                    lemma_sweep_wf(mid, tiles@);
                }
            },
        }
    }
}

/// The display color of each entity variant.
pub open spec fn entity_color(kind: EntityKind) -> Color {
    match kind {
        EntityKind::Player => Color { r: 50, g: 150, b: 255, a: 255 },
        EntityKind::Walker => Color { r: 225, g: 50, b: 150, a: 255 },
        EntityKind::Jumper => Color { r: 255, g: 100, b: 50, a: 255 },
        EntityKind::Sitter => Color { r: 225, g: 150, b: 50, a: 255 },
    }
}

/// The running invariant of a sweep: the resolved position stays at most one
/// body length outside the play field, the entity's body, variant and size
/// are untouched, and each velocity component is either still the pre-sweep
/// one (possible only when that axis stayed in the field) or was set by some
/// hook or pad, all of which are bounded by the pad speed.
pub open spec fn sweep_inv(e: EntityModel, st: SweepState) -> bool {
    &&& -e.s <= st.nx <= WIN_W
    &&& -e.s <= st.ny <= WIN_H
    &&& st.em.kind == e.kind
    &&& st.em.x == e.x
    &&& st.em.y == e.y
    &&& st.em.s == e.s
    &&& (-PAD_V <= st.em.vx <= PAD_V || (st.em.vx == e.vx && in_field_x(e)))
    &&& (-PAD_V <= st.em.vy <= PAD_V || (st.em.vy == e.vy && in_field_y(e)))
}

proof fn lemma_sweep_upto_inv(e: EntityModel, tiles: Seq<(BBox, TileID)>, n: int)
    requires
        e.kind != EntityKind::Sitter,
        0 < e.s <= WIN_W,
        e.s <= WIN_H,
        tiles_wf(tiles),
        0 <= n <= tiles.len(),
    ensures
        sweep_inv(e, sweep_upto(e, tiles, n)),
    decreases n,
{
    if n > 0 {
        lemma_sweep_upto_inv(e, tiles, n - 1);
    }
}

proof fn lemma_sweep_upto_alive(e: EntityModel, tiles: Seq<(BBox, TileID)>, n: int)
    requires
        0 <= n <= tiles.len(),
    ensures
        sweep_upto(e, tiles, n).em.alive ==> e.alive,
    decreases n,
{
    if n > 0 {
        lemma_sweep_upto_alive(e, tiles, n - 1);
    }
}

/// Liveness is one-way through a sweep: an entity the sweep leaves alive was
/// alive before it. Hooks never touch the flag and no tile reaction revives;
/// a hazard can only clear it.
pub proof fn lemma_sweep_liveness_one_way(e: EntityModel, tiles: Seq<(BBox, TileID)>)
    ensures
        sweep_model(e, tiles).alive ==> e.alive,
{
    lemma_sweep_upto_alive(e, tiles, tiles.len() as int);
}

/// True when neither sweep probe of `e` touches tile `i`: neither the
/// tentative position at the pre-tick y, nor the tentative position itself,
/// overlaps the tile's bound.
pub open spec fn clear_of_tile(e: EntityModel, b: BBox) -> bool {
    &&& !box_overlap_at(b, tent_x(e), e.y, e.s)
    &&& !box_overlap_at(b, tent_x(e), tent_y(e), e.s)
}

/// True when the sweep of `e` touches no tile of the level.
pub open spec fn clear_of_tiles(e: EntityModel, tiles: Seq<(BBox, TileID)>) -> bool {
    forall|i: int| 0 <= i < tiles.len() ==> clear_of_tile(e, (#[trigger] tiles[i]).0)
}

proof fn lemma_sweep_upto_clear(e: EntityModel, tiles: Seq<(BBox, TileID)>, n: int)
    requires
        clear_of_tiles(e, tiles),
        0 <= n <= tiles.len(),
    ensures
        sweep_upto(e, tiles, n) == sweep_begin(e),
    decreases n,
{
    if n > 0 {
        lemma_sweep_upto_clear(e, tiles, n - 1);
        assert(clear_of_tile(e, tiles[n - 1].0));
    }
}

/// A sweep that touches no tile moves the entity exactly to its (clamped)
/// tentative position, leaves it not grounded, touches its velocity only
/// through the play-field boundary hooks, and fires each boundary hook at
/// most once — exactly once on an axis whose tentative position left the
/// field.
pub proof fn lemma_sweep_clear(e: EntityModel, tiles: Seq<(BBox, TileID)>)
    requires
        clear_of_tiles(e, tiles),
    ensures
        sweep_model(e, tiles) == (EntityModel { x: tent_x(e), y: tent_y(e), ..sweep_begin(e).em }),
        !sweep_model(e, tiles).on_ground,
        sweep_upto(e, tiles, tiles.len() as int).xh == sweep_begin(e).xh,
        sweep_upto(e, tiles, tiles.len() as int).yh == sweep_begin(e).yh,
{
    lemma_sweep_upto_clear(e, tiles, tiles.len() as int);
}

/// An entity at rest inside the play field and clear of all geometry is left
/// exactly where it is by one sweep: same position, zero velocity, no
/// grounded flag, no hook invocations.
pub proof fn lemma_sweep_at_rest(e: EntityModel, tiles: Seq<(BBox, TileID)>)
    requires
        e.vx == 0,
        e.vy == 0,
        0 <= e.x,
        e.x + e.s <= WIN_W,
        0 <= e.y,
        e.y + e.s <= WIN_H,
        forall|i: int|
            0 <= i < tiles.len() ==> !box_overlap_at((#[trigger] tiles[i]).0, e.x, e.y, e.s),
    ensures
        sweep_model(e, tiles).x == e.x,
        sweep_model(e, tiles).y == e.y,
        sweep_model(e, tiles).vx == 0,
        sweep_model(e, tiles).vy == 0,
        !sweep_model(e, tiles).on_ground,
        sweep_model(e, tiles).alive == e.alive,
        sweep_upto(e, tiles, tiles.len() as int).xh == 0,
        sweep_upto(e, tiles, tiles.len() as int).yh == 0,
{
    assert(in_field_x(e));
    assert(in_field_y(e));
    assert(tent_x(e) == e.x);
    assert(tent_y(e) == e.y);
    assert(clear_of_tiles(e, tiles));
    lemma_sweep_clear(e, tiles);
}

/// An entity whose tentative position would leave the play field on the
/// right is clamped to the field's edge, and the horizontal collision hook
/// fires exactly once, provided no tile stands at the clamped position.
pub proof fn lemma_boundary_clamp(e: EntityModel, tiles: Seq<(BBox, TileID)>)
    requires
        0 < e.s <= WIN_W,
        e.vx > 0,
        e.x + e.vx + e.s > WIN_W,
        clear_of_tiles(e, tiles),
    ensures
        sweep_model(e, tiles).x == WIN_W - e.s,
        sweep_model(e, tiles).vx == hook_col_x(e.kind, e.vx),
        sweep_upto(e, tiles, tiles.len() as int).xh == 1,
{
    assert(!in_field_x(e));
    assert(tent_x(e) == WIN_W - e.s);
    lemma_sweep_clear(e, tiles);
}

/// A tick without tile contact always ends with the grounded flag cleared,
/// whatever it was before: walking off a ledge immediately disables
/// jumping.
pub proof fn lemma_grounded_reset(e: EntityModel, tiles: Seq<(BBox, TileID)>)
    requires
        clear_of_tiles(e, tiles),
    ensures
        !sweep_model(e, tiles).on_ground,
{
    lemma_sweep_clear(e, tiles);
}

/// An entity beside a tile, approaching it diagonally so fast that its
/// leading edge would cross the tile's whole width in one tick, is still
/// stopped at the tile's near edge: the x axis is probed first, at the
/// pre-tick y, and the y probe at the resolved x can no longer reach the
/// tile, so the entity slides along it vertically. (A tentative position
/// already fully beyond the tile's far edge is out of the probe's reach and
/// is not covered.)
pub proof fn lemma_corner_non_tunneling(e: EntityModel, tiles: Seq<(BBox, TileID)>)
    requires
        tiles.len() == 1,
        0 < e.s,
        e.vx > 0,
        e.x + e.s <= tiles[0].0.x,
        e.x + e.vx + e.s > tiles[0].0.x,
        e.x + e.vx < tiles[0].0.a,
        tiles[0].0.y < e.y + e.s,
        tiles[0].0.b > e.y,
        0 <= e.x + e.vx,
        e.x + e.vx + e.s <= WIN_W,
        0 <= e.y + e.vy,
        e.y + e.vy + e.s <= WIN_H,
    ensures
        sweep_model(e, tiles).x == tiles[0].0.x - e.s,
        sweep_model(e, tiles).y == e.y + e.vy,
        sweep_upto(e, tiles, 1).xh == 1,
{
    assert(in_field_x(e));
    assert(in_field_y(e));
    let b = tiles[0].0;
    let st0 = sweep_begin(e);
    assert(st0.nx == e.x + e.vx);
    assert(st0.ny == e.y + e.vy);
    assert(sweep_upto(e, tiles, 0) == sweep_begin(e));
    assert(sweep_upto(e, tiles, 1) == sweep_step(e, st0, b, tiles[0].1));
    assert(box_overlap_at(b, st0.nx, e.y, e.s));
    assert(!box_overlap_at(b, b.x - e.s, st0.ny, e.s));
}

/// A full sweep keeps a well-formed entity well-formed: the resolved
/// position is at most one body length outside the play field, and both
/// velocity components end up bounded by the field size. The entity's
/// variant and body size never change.
pub proof fn lemma_sweep_wf(e: EntityModel, tiles: Seq<(BBox, TileID)>)
    requires
        e.kind != EntityKind::Sitter,
        0 < e.s <= WIN_W,
        e.s <= WIN_H,
        -e.s <= e.x <= WIN_W,
        -e.s <= e.y <= WIN_H,
        tiles_wf(tiles),
    ensures
        entity_wf(sweep_model(e, tiles)),
        sweep_model(e, tiles).kind == e.kind,
        sweep_model(e, tiles).s == e.s,
{
    lemma_sweep_upto_inv(e, tiles, tiles.len() as int);
}

} // verus!
