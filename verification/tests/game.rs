use platcore::arena::{Arena, LEVEL_COUNT};
use platcore::enemies::update_enemies;
use platcore::entity::{Entity, EntityKind, WALKER_VX};
use platcore::geometry::{BBox, Square, Vec2};
use platcore::laser::Laser;
use platcore::player::{Input, Player};
use platcore::tile::TileID;

fn no_input() -> Input {
    Input {
        left: false,
        right: false,
        jump: false,
        aim_left: false,
        aim_right: false,
        aim_up: false,
        aim_down: false,
        reset: false,
    }
}

#[test]
fn sixty_idle_ticks_leave_the_player_standing_and_the_walker_walking() {
    // Player at rest on a solid floor, no input, one walker far away:
    // after 60 ticks the player has not moved and is grounded, and the
    // walker has advanced by 60 times its speed without reaching a wall.
    let tiles: Vec<(BBox, TileID)> = vec![(BBox::new(0, 15000, 16000, 16000), TileID::Blck)];
    let mut p = Player::new(Vec2::new(12000, 15000 - 640));
    let mut es: Vec<Entity> = vec![Entity::walker(160, 15000 - 560)];
    let inp = no_input();
    for _ in 0..60 {
        p.update(&inp, &tiles);
        update_enemies(&mut es, &p, &tiles);
        p.do_enemy_check(&es);
    }
    assert_eq!(p.ent.body.x, 12000);
    assert_eq!(p.ent.body.y, 15000 - 640);
    assert!(p.ent.on_ground);
    assert!(p.is_alive());
    assert_eq!(es.len(), 1);
    assert_eq!(es[0].body.x, 160 + 60 * WALKER_VX);
    assert_eq!(es[0].body.y, 15000 - 560);
}

#[test]
fn player_jumps_from_the_ground() {
    let tiles: Vec<(BBox, TileID)> = vec![(BBox::new(0, 15000, 16000, 16000), TileID::Blck)];
    let mut p = Player::new(Vec2::new(8000, 15000 - 640));
    let idle = no_input();
    p.update(&idle, &tiles);
    assert!(p.ent.on_ground);
    let jump = Input { jump: true, ..no_input() };
    p.update(&jump, &tiles);
    assert!(!p.ent.on_ground);
    assert_eq!(p.ent.body.y, 15000 - 640 - 360);
}

#[test]
fn player_accelerates_and_decelerates() {
    let tiles: Vec<(BBox, TileID)> = vec![(BBox::new(0, 15000, 16000, 16000), TileID::Blck)];
    let mut p = Player::new(Vec2::new(8000, 15000 - 640));
    let right = Input { right: true, ..no_input() };
    p.update(&right, &tiles);
    assert_eq!(p.ent.v.x, 10);
    p.update(&right, &tiles);
    assert_eq!(p.ent.v.x, 20);
    let idle = no_input();
    p.update(&idle, &tiles);
    assert_eq!(p.ent.v.x, 5);
    p.update(&idle, &tiles);
    assert_eq!(p.ent.v.x, 0);
}

#[test]
fn player_speed_is_capped() {
    let tiles: Vec<(BBox, TileID)> = vec![(BBox::new(0, 15000, 16000, 16000), TileID::Blck)];
    let mut p = Player::new(Vec2::new(2000, 15000 - 640));
    let right = Input { right: true, ..no_input() };
    for _ in 0..30 {
        p.update(&right, &tiles);
    }
    assert_eq!(p.ent.v.x, 200);
}

#[test]
fn trigger_shoots_from_the_body_center_and_is_not_requeued() {
    let tiles: Vec<(BBox, TileID)> = vec![(BBox::new(0, 15000, 16000, 16000), TileID::Blck)];
    let mut p = Player::new(Vec2::new(12000, 15000 - 640));
    let aim = Input { aim_right: true, ..no_input() };
    p.update(&aim, &tiles);
    assert_eq!(p.laser.time, 255);
    assert_eq!(p.laser.beg.x, 12000 + 320);
    assert_eq!(p.laser.beg.y, 15000 - 640 + 320);
    // The floor does not cover the ray's y, so it reaches the field edge.
    assert_eq!(p.laser.end.x, 16000);
    // A second trigger while active is ignored: only the timer moves.
    let before = p.laser;
    p.update(&aim, &tiles);
    assert_eq!(p.laser.beg.x, before.beg.x);
    assert_eq!(p.laser.end.x, before.end.x);
    assert_eq!(p.laser.time, 240);
}

#[test]
fn aim_order_is_left_right_up_down() {
    let tiles: Vec<(BBox, TileID)> = vec![];
    let mut p = Player::new(Vec2::new(8000, 8000));
    let all = Input {
        aim_left: true,
        aim_right: true,
        aim_up: true,
        aim_down: true,
        ..no_input()
    };
    p.update(&all, &tiles);
    // Left wins over everything: the ray ends at the field's left edge.
    assert_eq!(p.laser.end.x, 0);
    assert_eq!(p.laser.end.y, 8000 + 320);

    // With both vertical aim keys held, up wins over down.
    let mut q = Player::new(Vec2::new(8000, 8000));
    let vertical = Input { aim_up: true, aim_down: true, ..no_input() };
    q.update(&vertical, &tiles);
    assert_eq!(q.laser.end.y, 0);
    assert_eq!(q.laser.end.x, 8000 + 320);
}

#[test]
fn touching_hostile_kills_the_player() {
    let mut p = Player::new(Vec2::new(5000, 5000));
    let es: Vec<Entity> = vec![Entity::walker(5300, 5300)];
    p.do_enemy_check(&es);
    assert!(!p.is_alive());
}

#[test]
fn distant_hostile_leaves_the_player_alive() {
    let mut p = Player::new(Vec2::new(5000, 5000));
    let es: Vec<Entity> = vec![Entity::walker(9000, 9000)];
    p.do_enemy_check(&es);
    assert!(p.is_alive());
}

#[test]
fn laser_hit_removes_the_hostile() {
    let tiles: Vec<(BBox, TileID)> = vec![];
    let mut p = Player::new(Vec2::new(200, 10400));
    p.laser = Laser {
        beg: Vec2::new(0, 10480),
        end: Vec2::new(16000, 10480),
        time: 255,
    };
    let mut es: Vec<Entity> = vec![Entity::sitter(5000, 10200)];
    update_enemies(&mut es, &p, &tiles);
    assert_eq!(es.len(), 0);
}

#[test]
fn dead_hostiles_are_pruned() {
    let tiles: Vec<(BBox, TileID)> = vec![(BBox::new(2000, 10000, 3000, 11000), TileID::Fire)];
    let p = Player::new(Vec2::new(200, 200));
    let mut es: Vec<Entity> = vec![Entity::walker(1500, 10200), Entity::sitter(8000, 8000)];
    update_enemies(&mut es, &p, &tiles);
    // The walker hit the hazard and died; the sitter stays.
    assert_eq!(es.len(), 1);
    assert!(matches!(es[0].kind, EntityKind::Sitter));
}

#[test]
fn init_game_spawns_each_level() {
    let (a0, p0, e0) = Arena::init_game(0);
    assert_eq!(a0.i, 0);
    assert_eq!(a0.tiles.len(), 7);
    assert_eq!((a0.spawn.x, a0.spawn.y), (5333, 14360));
    assert_eq!((p0.ent.body.x, p0.ent.body.y), (5333, 14360));
    assert!(p0.is_alive());
    assert_eq!(p0.laser.time, 0);
    assert_eq!(e0.len(), 2);

    let (a1, _p1, e1) = Arena::init_game(1);
    assert_eq!(a1.tiles.len(), 6);
    assert_eq!(e1.len(), 15);

    let (a2, _p2, e2) = Arena::init_game(2);
    assert_eq!(a2.tiles.len(), 5);
    assert_eq!(e2.len(), 12);

    let (a3, _p3, e3) = Arena::init_game(3);
    assert_eq!(a3.tiles.len(), 8);
    assert_eq!(e3.len(), 4);
    assert!(e3.iter().all(|e| matches!(e.kind, EntityKind::Sitter)));
}

#[test]
fn arena_resets_on_death_or_request() {
    let (mut a, mut p, mut es) = Arena::init_game(0);
    // Move the player and kill it: the arena rebuilds everything, at the
    // same level (death wins over the empty hostile set).
    p.ent.set_pos(Vec2::new(100, 100));
    p.ent.kill();
    es.clear();
    a.update(false, &mut p, &mut es);
    assert_eq!(a.i, 0);
    assert!(p.is_alive());
    assert_eq!((p.ent.body.x, p.ent.body.y), (5333, 14360));
    assert_eq!(es.len(), 2);

    // A manual reset does the same even with the player alive.
    p.ent.set_pos(Vec2::new(100, 100));
    a.update(true, &mut p, &mut es);
    assert_eq!((p.ent.body.x, p.ent.body.y), (5333, 14360));

    // No reset and an alive player: nothing changes.
    p.ent.set_pos(Vec2::new(100, 100));
    a.update(false, &mut p, &mut es);
    assert_eq!((p.ent.body.x, p.ent.body.y), (100, 100));
}

#[test]
fn clearing_the_hostile_set_advances_the_level() {
    let (mut a, mut p, mut es) = Arena::init_game(0);
    // All hostiles gone and the player alive: the whole arena state is
    // replaced from the next level's template.
    es.clear();
    a.update(false, &mut p, &mut es);
    assert_eq!(a.i, 1);
    assert_eq!(a.tiles.len(), 6);
    assert_eq!((p.ent.body.x, p.ent.body.y), (1840, 14360));
    assert!(p.is_alive());
    assert_eq!(es.len(), 15);

    // Clearing the last level wraps back to the first.
    let (mut a3, mut p3, mut es3) = Arena::init_game(3);
    es3.clear();
    a3.update(false, &mut p3, &mut es3);
    assert_eq!(a3.i, 0);
    assert_eq!(a3.tiles.len(), 7);
}

#[test]
fn levels_advance_and_wrap() {
    assert_eq!(Arena::next_index(0), 1);
    assert_eq!(Arena::next_index(1), 2);
    assert_eq!(Arena::next_index(2), 3);
    assert_eq!(Arena::next_index(3), 0);
    assert!(LEVEL_COUNT == 4);
}

#[test]
fn tile_iter_exposes_the_geometry() {
    let (a, _p, _e) = Arena::init_game(2);
    let ts = a.tile_iter();
    assert_eq!(ts.len(), 5);
    assert_eq!(ts[0].0.y, 15000);
}

#[test]
fn player_dies_on_hazard_tile() {
    let tiles: Vec<(BBox, TileID)> = vec![(BBox::new(7000, 15000, 16000, 16000), TileID::Fire)];
    let mut p = Player::new(Vec2::new(8000, 15000 - 640 - 100));
    let idle = no_input();
    // Falls onto the hazard within a few ticks and dies on contact.
    for _ in 0..10 {
        p.update(&idle, &tiles);
    }
    assert!(!p.is_alive());
}

#[test]
fn squares_of_bodies_follow_entities() {
    let e = Entity::walker(1234, 5678);
    let b: Square = e.get_body();
    assert_eq!((b.x, b.y, b.s), (1234, 5678, 560));
    let v = e.get_v();
    assert_eq!((v.x, v.y), (WALKER_VX, 0));
}
