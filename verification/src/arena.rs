use vstd::prelude::*;
use crate::config::{WIN_H, WIN_W};
use crate::enemies::{enemies_wf, models, EnemyVec};
use crate::entity::{
    entity_wf, jumper_model, sitter_model, tiles_wf, walker_model, Entity, EntityKind, EntityModel,
};
use crate::geometry::{BBox, Vec2};
use crate::player::{player_wf, Player, PLAYER_S};
use crate::tile::TileID;

verus! {

/// How many levels the game has.
pub const LEVEL_COUNT: usize = 4;

/// The arena of the current level: its immutable tile geometry, the player's
/// spawn point, and the level index. Replaced wholesale on every reset or
/// advance, never mutated piecemeal.
#[derive(Clone, Debug)]
pub struct Arena {
    /// The level's static tile geometry, in reaction-precedence order.
    pub tiles: Vec<(BBox, TileID)>,
    /// Where the player spawns in this level.
    pub spawn: Vec2,
    /// The level's index.
    pub i: usize,
}

/// The tile list of each level.
pub open spec fn level_tile_list(i: int) -> Seq<(BBox, TileID)> {
    if i == 0 {
        seq![
            (BBox { x: 0, y: 15000, a: 8000, b: 16000 }, TileID::Blck),
            (BBox { x: 0, y: 8000, a: 1000, b: 15000 }, TileID::Ladr),
            (BBox { x: 8000, y: 15000, a: 12000, b: 16000 }, TileID::VPad),
            (BBox { x: 11000, y: 11000, a: 12000, b: 15000 }, TileID::HPad),
            (BBox { x: 12000, y: 15000, a: 16000, b: 16000 }, TileID::Fire),
            (BBox { x: 0, y: 0, a: 1000, b: 8000 }, TileID::VPad),
            (BBox { x: 2000, y: 0, a: 3000, b: 8000 }, TileID::VPad),
        ]
    } else if i == 1 {
        seq![
            (BBox { x: 1000, y: 15000, a: 15000, b: 16000 }, TileID::Blck),
            (BBox { x: 0, y: 0, a: 1000, b: 16000 }, TileID::Ladr),
            (BBox { x: 15000, y: 0, a: 16000, b: 16000 }, TileID::Ladr),
            (BBox { x: 2000, y: 5000, a: 15000, b: 6000 }, TileID::Blck),
            (BBox { x: 1000, y: 11000, a: 14000, b: 12000 }, TileID::Blck),
            (BBox { x: 12960, y: 0, a: 13960, b: 2000 }, TileID::Blck),
        ]
    } else if i == 2 {
        seq![
            (BBox { x: 0, y: 15000, a: 16000, b: 16000 }, TileID::Blck),
            (BBox { x: 8400, y: 14000, a: 16000, b: 16000 }, TileID::Blck),
            (BBox { x: 15000, y: 0, a: 16000, b: 14000 }, TileID::HPad),
            (BBox { x: 0, y: 4000, a: 12800, b: 5000 }, TileID::Blck),
            (BBox { x: 11800, y: 5000, a: 12800, b: 8500 }, TileID::HPad),
        ]
    } else {
        seq![
            (BBox { x: 0, y: 15000, a: 14300, b: 16000 }, TileID::Blck),
            (BBox { x: 2000, y: 13500, a: 3000, b: 16000 }, TileID::Fire),
            (BBox { x: 5000, y: 13500, a: 6100, b: 16000 }, TileID::Fire),
            (BBox { x: 8100, y: 13500, a: 9300, b: 16000 }, TileID::Fire),
            (BBox { x: 11300, y: 13500, a: 12600, b: 16000 }, TileID::Fire),
            (BBox { x: 14300, y: 15000, a: 16000, b: 16000 }, TileID::VPad),
            (BBox { x: 12500, y: 8000, a: 14200, b: 9000 }, TileID::VPad),
            (BBox { x: 0, y: 1000, a: 1000, b: 2000 }, TileID::Blck),
        ]
    }
}

/// The player spawn point of each level.
pub open spec fn level_spawn(i: int) -> (int, int) {
    if i == 0 {
        (5333, 14360)
    } else if i == 1 {
        (1840, 14360)
    } else if i == 2 {
        (840, 14360)
    } else {
        (500, 14360)
    }
}

/// The freshly spawned hostiles of each level.
pub open spec fn level_enemy_models(i: int) -> Seq<EntityModel> {
    if i == 0 {
        seq![walker_model(1000, 0), sitter_model(3700, 700)]
    } else if i == 1 {
        seq![
            sitter_model(14200, 800),
            walker_model(2000, 0),
            jumper_model(3000, 2000),
            walker_model(4000, 3600),
            jumper_model(6000, 1000),
            walker_model(8000, 2400),
            jumper_model(10000, 3200),
            walker_model(12000, 1800),
            jumper_model(14000, 4000),
            walker_model(3000, 8800),
            jumper_model(5000, 9200),
            walker_model(7000, 8400),
            jumper_model(9000, 10000),
            walker_model(11000, 9400),
            jumper_model(13000, 9600),
        ]
    } else if i == 2 {
        seq![
            walker_model(8000, 14440),
            walker_model(8440, 13440),
            jumper_model(0, 0),
            jumper_model(2000, 1100),
            jumper_model(4000, 1200),
            jumper_model(6000, 200),
            jumper_model(7000, 400),
            jumper_model(8000, 100),
            jumper_model(10000, 1000),
            walker_model(0, 1000),
            walker_model(5000, 1200),
            walker_model(10000, 1500),
        ]
    } else {
        seq![
            sitter_model(200, 200),
            sitter_model(4000, 8250),
            sitter_model(7100, 8250),
            sitter_model(10200, 8250),
        ]
    }
}

/// An arena is well-formed when its tiles lie in the play field, its index
/// is a real level, and the player fits at its spawn point.
pub open spec fn arena_wf(a: Arena) -> bool {
    &&& tiles_wf(a.tiles@)
    &&& a.i < LEVEL_COUNT
    &&& 0 <= a.spawn.x <= WIN_W - PLAYER_S
    &&& 0 <= a.spawn.y <= WIN_H - PLAYER_S
}

/// The entity state of a player freshly spawned at `(x, y)`.
pub open spec fn spawned_player(x: int, y: int) -> EntityModel {
    EntityModel {
        kind: EntityKind::Player,
        x,
        y,
        s: PLAYER_S as int,
        vx: 0,
        vy: 0,
        on_ground: false,
        alive: true,
    }
}

fn build_tiles(i: usize) -> (r: Vec<(BBox, TileID)>)
    requires
        i < LEVEL_COUNT,
    ensures
        r@ == level_tile_list(i as int),
{
    let r: Vec<(BBox, TileID)>;
    if i == 0 {
        r = vec![
            (BBox { x: 0, y: 15000, a: 8000, b: 16000 }, TileID::Blck),
            (BBox { x: 0, y: 8000, a: 1000, b: 15000 }, TileID::Ladr),
            (BBox { x: 8000, y: 15000, a: 12000, b: 16000 }, TileID::VPad),
            (BBox { x: 11000, y: 11000, a: 12000, b: 15000 }, TileID::HPad),
            (BBox { x: 12000, y: 15000, a: 16000, b: 16000 }, TileID::Fire),
            (BBox { x: 0, y: 0, a: 1000, b: 8000 }, TileID::VPad),
            (BBox { x: 2000, y: 0, a: 3000, b: 8000 }, TileID::VPad),
        ];
    } else if i == 1 {
        r = vec![
            (BBox { x: 1000, y: 15000, a: 15000, b: 16000 }, TileID::Blck),
            (BBox { x: 0, y: 0, a: 1000, b: 16000 }, TileID::Ladr),
            (BBox { x: 15000, y: 0, a: 16000, b: 16000 }, TileID::Ladr),
            (BBox { x: 2000, y: 5000, a: 15000, b: 6000 }, TileID::Blck),
            (BBox { x: 1000, y: 11000, a: 14000, b: 12000 }, TileID::Blck),
            (BBox { x: 12960, y: 0, a: 13960, b: 2000 }, TileID::Blck),
        ];
    } else if i == 2 {
        r = vec![
            (BBox { x: 0, y: 15000, a: 16000, b: 16000 }, TileID::Blck),
            (BBox { x: 8400, y: 14000, a: 16000, b: 16000 }, TileID::Blck),
            (BBox { x: 15000, y: 0, a: 16000, b: 14000 }, TileID::HPad),
            (BBox { x: 0, y: 4000, a: 12800, b: 5000 }, TileID::Blck),
            (BBox { x: 11800, y: 5000, a: 12800, b: 8500 }, TileID::HPad),
        ];
    } else {
        r = vec![
            (BBox { x: 0, y: 15000, a: 14300, b: 16000 }, TileID::Blck),
            (BBox { x: 2000, y: 13500, a: 3000, b: 16000 }, TileID::Fire),
            (BBox { x: 5000, y: 13500, a: 6100, b: 16000 }, TileID::Fire),
            (BBox { x: 8100, y: 13500, a: 9300, b: 16000 }, TileID::Fire),
            (BBox { x: 11300, y: 13500, a: 12600, b: 16000 }, TileID::Fire),
            (BBox { x: 14300, y: 15000, a: 16000, b: 16000 }, TileID::VPad),
            (BBox { x: 12500, y: 8000, a: 14200, b: 9000 }, TileID::VPad),
            (BBox { x: 0, y: 1000, a: 1000, b: 2000 }, TileID::Blck),
        ];
    }
    assert(r@ =~= level_tile_list(i as int));
    r
}

fn build_enemies(i: usize) -> (r: EnemyVec)
    requires
        i < LEVEL_COUNT,
    ensures
        models(r@) == level_enemy_models(i as int),
        enemies_wf(r@),
{
    let r: EnemyVec;
    if i == 0 {
        r = vec![Entity::walker(1000, 0), Entity::sitter(3700, 700)];
    } else if i == 1 {
        r = vec![
            Entity::sitter(14200, 800),
            Entity::walker(2000, 0),
            Entity::jumper(3000, 2000),
            Entity::walker(4000, 3600),
            Entity::jumper(6000, 1000),
            Entity::walker(8000, 2400),
            Entity::jumper(10000, 3200),
            Entity::walker(12000, 1800),
            Entity::jumper(14000, 4000),
            Entity::walker(3000, 8800),
            Entity::jumper(5000, 9200),
            Entity::walker(7000, 8400),
            Entity::jumper(9000, 10000),
            Entity::walker(11000, 9400),
            Entity::jumper(13000, 9600),
        ];
    } else if i == 2 {
        r = vec![
            Entity::walker(8000, 14440),
            Entity::walker(8440, 13440),
            Entity::jumper(0, 0),
            Entity::jumper(2000, 1100),
            Entity::jumper(4000, 1200),
            Entity::jumper(6000, 200),
            Entity::jumper(7000, 400),
            Entity::jumper(8000, 100),
            Entity::jumper(10000, 1000),
            Entity::walker(0, 1000),
            Entity::walker(5000, 1200),
            Entity::walker(10000, 1500),
        ];
    } else {
        r = vec![
            Entity::sitter(200, 200),
            Entity::sitter(4000, 8250),
            Entity::sitter(7100, 8250),
            Entity::sitter(10200, 8250),
        ];
    }
    assert(models(r@) =~= level_enemy_models(i as int));
    assert forall|j: int| 0 <= j < r@.len() implies entity_wf((#[trigger] r@[j])@) && r@[j]@.kind
        != EntityKind::Player by {
        assert(r@[j]@ == models(r@)[j]);
    }
    r
}

impl Arena {
    /// Returns a freshly initialized game state for the given level: the
    /// arena with that level's geometry and spawn point, a player spawned at
    /// rest there, and the level's hostile set.
    pub fn init_game(i: usize) -> (r: (Arena, Player, EnemyVec))
        requires
            i < LEVEL_COUNT,
        ensures
            r.0.i == i,
            r.0.tiles@ == level_tile_list(i as int),
            (r.0.spawn.x as int, r.0.spawn.y as int) == level_spawn(i as int),
            arena_wf(r.0),
            r.1@.ent == spawned_player(level_spawn(i as int).0, level_spawn(i as int).1),
            r.1@.laser.time == 0,
            player_wf(r.1@),
            models(r.2@) == level_enemy_models(i as int),
            enemies_wf(r.2@),
    {
        let spawn: Vec2;
        if i == 0 {
            spawn = Vec2 { x: 5333, y: 14360 };
        } else if i == 1 {
            spawn = Vec2 { x: 1840, y: 14360 };
        } else if i == 2 {
            spawn = Vec2 { x: 840, y: 14360 };
        } else {
            spawn = Vec2 { x: 500, y: 14360 };
        }
        let arena = Arena { tiles: build_tiles(i), spawn, i };
        let player = Player::new(spawn);
        let enemies = build_enemies(i);
        (arena, player, enemies)
    }

    /// Returns the level's tile geometry, for the collision sweep, the laser
    /// clipping, and drawing.
    pub fn tile_iter(&self) -> (r: &Vec<(BBox, TileID)>)
        ensures
            r@ == self.tiles@,
    {
        &self.tiles
    }

    /// The reset/advance decision of one frame. When a manual reset is
    /// requested or the player is dead, the entire arena state — geometry,
    /// player and hostile set — is replaced wholesale from this level's
    /// template. Otherwise, when the hostile set has become empty (level
    /// clear), it is replaced the same way from the next level's template,
    /// wrapping after the last. Otherwise nothing changes. State is never
    /// mutated piecemeal.
    pub fn update(&mut self, reset: bool, p: &mut Player, es: &mut EnemyVec)
        requires
            arena_wf(*old(self)),
        ensures
            ({
                let redo = reset || !old(p)@.ent.alive;
                let clear = old(es)@.len() == 0;
                let j = if redo {
                    old(self).i as int
                } else {
                    (old(self).i + 1) % (LEVEL_COUNT as int)
                };
                &&& (redo || clear) ==> {
                    &&& final(self).i as int == j
                    &&& final(self).tiles@ == level_tile_list(j)
                    &&& (final(self).spawn.x as int, final(self).spawn.y as int) == level_spawn(j)
                    &&& arena_wf(*final(self))
                    &&& final(p)@.ent == spawned_player(level_spawn(j).0, level_spawn(j).1)
                    &&& final(p)@.laser.time == 0
                    &&& player_wf(final(p)@)
                    &&& models(final(es)@) == level_enemy_models(j)
                    &&& enemies_wf(final(es)@)
                }
                &&& !(redo || clear) ==> {
                    &&& *final(self) == *old(self)
                    &&& *final(p) == *old(p)
                    &&& final(es)@ == old(es)@
                }
            }),
    {
        if reset || !p.is_alive() {
            let (na, np, ne) = Self::init_game(self.i);
            *self = na;
            *p = np;
            *es = ne;
        } else if es.len() == 0 {
            let (na, np, ne) = Self::init_game(Self::next_index(self.i));
            *self = na;
            *p = np;
            *es = ne;
        }
    }

    /// The level that follows level `i`: the next one, wrapping back to the
    /// first after the last.
    pub fn next_index(i: usize) -> (r: usize)
        requires
            i < LEVEL_COUNT,
        ensures
            r as int == (i + 1) % (LEVEL_COUNT as int),
            r < LEVEL_COUNT,
    {
        (i + 1) % LEVEL_COUNT
    }
}

} // verus!
