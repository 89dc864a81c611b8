use vstd::prelude::*;
use crate::config::{GRAVITY, WIN_H, WIN_W};
use crate::entity::{
    entity_wf, sweep_model, tiles_wf, Entity, EntityKind, EntityModel,
};
use crate::geometry::{max_m, min_m, sq_overlap, BBox, Square, Vec2};
use crate::laser::{
    decayed, laser_end, laser_in_range, lemma_laser_end_in_field, Direction, Laser, LASER_FULL_LIFE,
};
use crate::tile::TileID;

verus! {

/// Side length of the player's body.
pub const PLAYER_S: i32 = 640;

/// The player's largest horizontal speed under its own power.
pub const PLAYER_MAX_VX: i32 = 200;

/// How much horizontal speed one tick of held input adds.
pub const PLAYER_ACC: i32 = 10;

/// How much horizontal speed one tick without input removes.
pub const PLAYER_DEC: i32 = 15;

/// The player's jump velocity.
pub const PLAYER_JMP_VY: i32 = -360;

/// One tick's input snapshot: which controls are currently held.
#[derive(Clone, Copy, PartialEq, Eq, Structural, Debug)]
pub struct Input {
    pub left: bool,
    pub right: bool,
    pub jump: bool,
    pub aim_left: bool,
    pub aim_right: bool,
    pub aim_up: bool,
    pub aim_down: bool,
    pub reset: bool,
}

/// The user-controlled entity: a body with a grounded flag and a liveness
/// flag, plus the one laser it may have in flight.
#[derive(Clone, Copy, PartialEq, Eq, Structural, Debug)]
pub struct Player {
    /// The player's body, velocity and flags.
    pub ent: Entity,
    /// The player's laser.
    pub laser: Laser,
}

/// The mathematical state of a player: its entity state and its laser.
pub ghost struct PlayerModel {
    pub ent: EntityModel,
    pub laser: Laser,
}

impl View for Player {
    type V = PlayerModel;

    open spec fn view(&self) -> PlayerModel {
        PlayerModel { ent: self.ent@, laser: self.laser }
    }
}

/// A player is well-formed when its entity is of the player variant and
/// well-formed, and its laser's coordinates are in the engine's range.
pub open spec fn player_wf(p: PlayerModel) -> bool {
    &&& p.ent.kind is Player
    &&& entity_wf(p.ent)
    &&& laser_in_range(p.laser)
}

/// True when some aim control is held.
pub open spec fn wants_to_shoot(inp: Input) -> bool {
    inp.aim_left || inp.aim_right || inp.aim_up || inp.aim_down
}

/// The direction of the first aim control found held, probed in the fixed
/// order left, right, up, down.
pub open spec fn shoot_dir(inp: Input) -> Direction {
    if inp.aim_left {
        Direction::Left
    } else if inp.aim_right {
        Direction::Right
    } else if inp.aim_up {
        Direction::Up
    } else {
        Direction::Down
    }
}

/// What one tick of held input does to the player's velocity: with exactly
/// one direction held, speed builds toward that direction's maximum; with
/// none or both held, speed drains toward zero. Gravity is added, and a jump
/// from the ground replaces the vertical velocity and lifts the grounded
/// flag.
pub open spec fn movement_model(e: EntityModel, left: bool, right: bool, jump: bool) -> EntityModel {
    let vx1 = if left != right {
        if left {
            if e.vx > -PLAYER_MAX_VX {
                max_m(e.vx - PLAYER_ACC, -PLAYER_MAX_VX as int)
            } else {
                e.vx
            }
        } else {
            if e.vx < PLAYER_MAX_VX {
                min_m(e.vx + PLAYER_ACC, PLAYER_MAX_VX as int)
            } else {
                e.vx
            }
        }
    } else {
        if e.vx > 0 {
            e.vx - min_m(PLAYER_DEC as int, e.vx)
        } else if e.vx < 0 {
            e.vx + min_m(PLAYER_DEC as int, -e.vx)
        } else {
            0
        }
    };
    if e.on_ground && jump {
        EntityModel { vx: vx1, vy: PLAYER_JMP_VY as int, on_ground: false, ..e }
    } else {
        EntityModel { vx: vx1, vy: e.vy + GRAVITY, ..e }
    }
}

/// The laser after the trigger step: an inactive laser is replaced by a
/// fresh one from the body's center in the first aimed direction, clipped
/// against the level geometry; an active laser, or no aim input, leaves the
/// laser as it is.
pub open spec fn shoot_model(
    l: Laser,
    e: EntityModel,
    inp: Input,
    tiles: Seq<(BBox, TileID)>,
) -> Laser {
    if l.time == 0 && wants_to_shoot(inp) {
        let cx = e.x + e.s / 2;
        let cy = e.y + e.s / 2;
        let endp = laser_end(cx, cy, shoot_dir(inp), tiles);
        Laser {
            beg: Vec2 { x: cx as i32, y: cy as i32 },
            end: Vec2 { x: endp.0 as i32, y: endp.1 as i32 },
            time: LASER_FULL_LIFE,
        }
    } else {
        l
    }
}

/// One full player tick: the laser timer decays, input shapes the velocity,
/// the laser may be triggered from the body's center, and the shared
/// collision sweep resolves the motion against the level geometry.
pub open spec fn player_frame(p: PlayerModel, inp: Input, tiles: Seq<(BBox, TileID)>) -> PlayerModel {
    let l1 = Laser { time: decayed(p.laser.time as int) as u8, ..p.laser };
    let e1 = movement_model(p.ent, inp.left, inp.right, inp.jump);
    PlayerModel { ent: sweep_model(e1, tiles), laser: shoot_model(l1, e1, inp, tiles) }
}

impl Player {
    /// Returns a new player at the given position: at rest, alive, airborne,
    /// with an inactive laser.
    pub fn new(p: Vec2) -> (r: Self)
        ensures
            r@.ent == (EntityModel {
                kind: EntityKind::Player,
                x: p.x as int,
                y: p.y as int,
                s: PLAYER_S as int,
                vx: 0,
                vy: 0,
                on_ground: false,
                alive: true,
            }),
            r@.laser.time == 0,
            r@.laser.beg == (Vec2 { x: 0, y: 0 }),
            r@.laser.end == (Vec2 { x: 0, y: 0 }),
    {
        Player {
            ent: Entity {
                kind: EntityKind::Player,
                body: Square { x: p.x, y: p.y, s: PLAYER_S },
                v: Vec2 { x: 0, y: 0 },
                on_ground: false,
                alive: true,
            },
            laser: Laser::new_inactive(),
        }
    }

    /// Returns a reference to the player's laser.
    pub fn get_laser(&self) -> (r: &Laser)
        ensures
            *r == self.laser,
    {
        &self.laser
    }

    /// True while the player is alive.
    pub fn is_alive(&self) -> (r: bool)
        ensures
            r == self@.ent.alive,
    {
        self.ent.is_alive()
    }

    /// Kills the player the instant any of the given bodies overlaps the
    /// player's body (edge contact included). Nothing else changes.
    pub fn do_enemy_check(&mut self, es: &Vec<Entity>)
        requires
            entity_wf(old(self)@.ent),
            forall|i: int| 0 <= i < es@.len() ==> entity_wf((#[trigger] es@[i])@),
        ensures
            final(self)@.laser == old(self)@.laser,
            final(self)@.ent == (EntityModel {
                alive: old(self)@.ent.alive && !(exists|i: int|
                    0 <= i < es@.len() && sq_overlap((#[trigger] es@[i]).body, old(self).ent.body)),
                ..old(self)@.ent
            }),
    {
        let n = es.len();
        let mut i: usize = 0;
        let mut hit = false;
        while i < n
            invariant
                i <= n,
                n == es@.len(),
                hit == (exists|j: int|
                    0 <= j < i && sq_overlap((#[trigger] es@[j]).body, self.ent.body)),
                *self == *old(self),
                entity_wf(self@.ent),
                forall|k: int| 0 <= k < es@.len() ==> entity_wf((#[trigger] es@[k])@),
            decreases n - i,
        {
            if es[i].get_body().collides_with(&self.ent.body) {
                hit = true;
            }
            i = i + 1;
        }
        if hit {
            self.ent.kill();
        }
    }

    /// Applies one tick of input to the player's velocity.
    fn do_movement(&mut self, inp: &Input)
        requires
            old(self)@.ent.kind is Player,
            entity_wf(old(self)@.ent),
        ensures
            final(self)@.ent == movement_model(old(self)@.ent, inp.left, inp.right, inp.jump),
            final(self)@.laser == old(self)@.laser,
    {
        if inp.left != inp.right {
            if inp.left && self.ent.v.x > -PLAYER_MAX_VX {
                let nv = self.ent.v.x - PLAYER_ACC;
                self.ent.v.x = if nv < -PLAYER_MAX_VX {
                    -PLAYER_MAX_VX
                } else {
                    nv
                };
            }
            if inp.right && self.ent.v.x < PLAYER_MAX_VX {
                let nv = self.ent.v.x + PLAYER_ACC;
                self.ent.v.x = if nv > PLAYER_MAX_VX {
                    PLAYER_MAX_VX
                } else {
                    nv
                };
            }
        } else {
            if self.ent.v.x > 0 {
                let dec = if PLAYER_DEC < self.ent.v.x {
                    PLAYER_DEC
                } else {
                    self.ent.v.x
                };
                self.ent.v.x = self.ent.v.x - dec;
            } else if self.ent.v.x < 0 {
                let neg = -self.ent.v.x;
                let dec = if PLAYER_DEC < neg {
                    PLAYER_DEC
                } else {
                    neg
                };
                self.ent.v.x = self.ent.v.x + dec;
            }
        }

        self.ent.v.y = self.ent.v.y + GRAVITY;
        if self.ent.on_ground && inp.jump {
            self.ent.v.y = PLAYER_JMP_VY;
            self.ent.on_ground = false;
        }
    }

    /// Triggers the laser when it is inactive and an aim control is held:
    /// the ray starts at the body's center and goes in the first aimed
    /// direction, clipped against the level geometry.
    fn do_shoot(&mut self, inp: &Input, tiles: &Vec<(BBox, TileID)>)
        requires
            -WIN_W <= old(self)@.ent.x <= WIN_W,
            -WIN_H <= old(self)@.ent.y <= WIN_H,
            0 < old(self)@.ent.s <= WIN_W,
        ensures
            final(self)@.ent == old(self)@.ent,
            final(self)@.laser == shoot_model(old(self)@.laser, old(self)@.ent, *inp, tiles@),
    {
        if self.laser.is_active() {
            return ;
        }
        let c = self.ent.body.center();
        if inp.aim_left {
            self.laser = Laser::new(c, Direction::Left, tiles);
        } else if inp.aim_right {
            self.laser = Laser::new(c, Direction::Right, tiles);
        } else if inp.aim_up {
            self.laser = Laser::new(c, Direction::Up, tiles);
        } else if inp.aim_down {
            self.laser = Laser::new(c, Direction::Down, tiles);
        }
    }

    /// One full player tick, in fixed order: decay the laser timer, apply
    /// input to the velocity, trigger the laser if asked and possible, and
    /// resolve the motion against the level geometry with the shared sweep.
    pub fn update(&mut self, inp: &Input, tiles: &Vec<(BBox, TileID)>)
        requires
            player_wf(old(self)@),
            tiles_wf(tiles@),
        ensures
            final(self)@ == player_frame(old(self)@, *inp, tiles@),
            player_wf(final(self)@),
    {
        self.laser.update();
        self.do_movement(inp);
        let ghost mid = self@;
        self.do_shoot(inp, tiles);
        self.ent.do_map_collision(tiles);
        proof {
            crate::entity::lemma_sweep_wf(mid.ent, tiles@);
            if mid.laser.time == 0 && wants_to_shoot(*inp) {
                lemma_laser_end_in_field(
                    mid.ent.x + mid.ent.s / 2,
                    mid.ent.y + mid.ent.s / 2,
                    shoot_dir(*inp),
                    tiles@,
                );
            }
        }
    }
}

} // verus!
