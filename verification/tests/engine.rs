use platcore::config::{WIN_H, WIN_W};
use platcore::entity::{Entity, EntityKind, WALKER_VX};
use platcore::geometry::{BBox, Square, Vec2};
use platcore::tile::{TileID, PAD_V};

fn walker_at(x: i32, y: i32, vx: i32, vy: i32) -> Entity {
    Entity {
        kind: EntityKind::Walker,
        body: Square { x, y, s: 560 },
        v: Vec2 { x: vx, y: vy },
        on_ground: false,
        alive: true,
    }
}

#[test]
fn sweep_at_rest_leaves_position_unchanged() {
    let tiles: Vec<(BBox, TileID)> = vec![(BBox::new(0, 15000, 16000, 16000), TileID::Blck)];
    let mut e = walker_at(5000, 5000, 0, 0);
    e.do_map_collision(&tiles);
    assert_eq!(e.body.x, 5000);
    assert_eq!(e.body.y, 5000);
    assert_eq!(e.v.x, 0);
    assert_eq!(e.v.y, 0);
    assert!(!e.on_ground);
    assert!(e.alive);
}

#[test]
fn boundary_clamp_stops_at_field_edge() {
    // Overhanging the right edge by 5, moving right by 10: clamped to the
    // edge, and the x hook fires exactly once (a walker's flip is visible).
    let tiles: Vec<(BBox, TileID)> = vec![];
    let mut e = walker_at(WIN_W - 560 + 5, 5000, 10, 0);
    e.do_map_collision(&tiles);
    assert_eq!(e.body.x, WIN_W - 560);
    assert_eq!(e.v.x, -WALKER_VX);
    assert_eq!(e.body.y, 5000);
}

#[test]
fn corner_approach_stops_at_near_edge() {
    // Fast diagonal approach: the tentative x crosses the tile's whole
    // width, yet the x probe (at the pre-tick y) stops the entity at the
    // near edge and it slides on in y.
    let tiles: Vec<(BBox, TileID)> = vec![(BBox::new(8000, 7000, 9000, 8000), TileID::Blck)];
    let mut e = walker_at(7000, 7200, 1500, 100);
    e.do_map_collision(&tiles);
    assert_eq!(e.body.x, 8000 - 560);
    assert_eq!(e.body.y, 7300);
    assert_eq!(e.v.x, -WALKER_VX);
}

#[test]
fn grounded_resets_after_walking_off_a_ledge() {
    let tiles: Vec<(BBox, TileID)> = vec![(BBox::new(4000, 10000, 6000, 11000), TileID::Blck)];
    let mut e = Entity::walker(5840, 9440);
    e.update(&tiles);
    assert!(e.on_ground);
    assert_eq!(e.body.y, 9440);
    e.update(&tiles);
    assert!(!e.on_ground);
    assert_eq!(e.body.x, 5840 + 2 * WALKER_VX);
    assert_eq!(e.body.y, 9460);
}

#[test]
fn vertical_pad_launches_away_from_its_center() {
    let tiles: Vec<(BBox, TileID)> = vec![(BBox::new(4000, 10000, 6000, 11000), TileID::VPad)];
    // Falling onto the pad from above: body center above pad center.
    let mut above = walker_at(4500, 9440, 0, 600);
    above.do_map_collision(&tiles);
    assert_eq!(above.v.y, -PAD_V);
    assert!(!above.on_ground);
    assert_eq!(above.body.y, 9440);
    // Rising into the pad from below: body center below pad center.
    let mut below = walker_at(4500, 11200, 0, -600);
    below.do_map_collision(&tiles);
    assert_eq!(below.v.y, PAD_V);
    assert!(!below.on_ground);
    assert_eq!(below.body.y, 11000);
}

#[test]
fn horizontal_pad_launches_away_on_x() {
    let tiles: Vec<(BBox, TileID)> = vec![(BBox::new(8000, 10000, 9000, 11000), TileID::HPad)];
    let mut e = walker_at(7500, 10200, WALKER_VX, 0);
    e.do_map_collision(&tiles);
    assert_eq!(e.body.x, 8000 - 560);
    assert_eq!(e.v.x, -PAD_V);
}

#[test]
fn ladder_contact_grounds_the_entity() {
    let tiles: Vec<(BBox, TileID)> = vec![(BBox::new(2000, 10000, 3000, 11000), TileID::Ladr)];
    let mut e = walker_at(1500, 10200, WALKER_VX, 0);
    e.do_map_collision(&tiles);
    assert_eq!(e.body.x, 2000 - 560);
    assert!(e.on_ground);
}

#[test]
fn hazard_contact_kills() {
    let tiles: Vec<(BBox, TileID)> = vec![(BBox::new(2000, 10000, 3000, 11000), TileID::Fire)];
    let mut e = walker_at(1500, 10200, WALKER_VX, 0);
    e.do_map_collision(&tiles);
    assert!(!e.alive);
}

#[test]
fn walker_turns_around_at_walls() {
    let tiles: Vec<(BBox, TileID)> = vec![
        (BBox::new(0, 15000, 16000, 16000), TileID::Blck),
        (BBox::new(9000, 10000, 10000, 16000), TileID::Blck),
    ];
    let mut e = Entity::walker(8200, 14440);
    e.update(&tiles);
    // 8200 + 152 = 8352; its right edge at 8912 is still short of the wall.
    assert_eq!(e.body.x, 8200 + WALKER_VX);
    assert_eq!(e.v.x, WALKER_VX);
    e.update(&tiles);
    // 8352 + 152 + 560 > 9000: stopped at the wall's near edge, reversed.
    assert_eq!(e.body.x, 9000 - 560);
    assert_eq!(e.v.x, -WALKER_VX);
}

#[test]
fn jumper_stops_on_landing_and_relaunches_when_grounded() {
    let tiles: Vec<(BBox, TileID)> = vec![(BBox::new(0, 15000, 16000, 16000), TileID::Blck)];
    let mut e = Entity::jumper(5000, 14000);
    // Starts rising (vy = -100); gravity brings it down onto the floor,
    // where the landing stops its vertical motion and grounds it.
    let mut landed = false;
    for _ in 0..60 {
        e.update(&tiles);
        if e.on_ground {
            landed = true;
            break;
        }
    }
    assert!(landed);
    assert_eq!(e.v.y, 0);
    assert_eq!(e.body.y, 15000 - 480);
    // Grounded, so the next tick re-launches it upward at the fixed
    // rebound speed.
    e.update(&tiles);
    assert_eq!(e.v.y, -500);
    assert_eq!(e.body.y, 15000 - 480 - 500);
    assert!(!e.on_ground);
}

#[test]
fn jumper_snaps_to_rebound_at_the_ceiling() {
    let tiles: Vec<(BBox, TileID)> = vec![(BBox::new(4000, 10000, 6000, 11000), TileID::Blck)];
    // Rising into the tile from below: stopped at its bottom edge and the
    // vertical velocity snaps to the fixed rebound speed.
    let mut e = Entity::jumper(4500, 11050);
    e.update(&tiles);
    assert_eq!(e.body.y, 11000);
    assert_eq!(e.v.y, -500);
    assert!(!e.on_ground);
}

#[test]
fn sitter_never_moves() {
    let tiles: Vec<(BBox, TileID)> = vec![(BBox::new(0, 15000, 16000, 16000), TileID::Blck)];
    let mut e = Entity::sitter(3000, 3000);
    for _ in 0..5 {
        e.update(&tiles);
    }
    assert_eq!(e.body.x, 3000);
    assert_eq!(e.body.y, 3000);
    assert!(e.alive);
}

#[test]
fn kill_is_one_way() {
    let mut e = Entity::walker(0, 0);
    assert!(e.is_alive());
    e.kill();
    assert!(!e.is_alive());
}

#[test]
fn window_floor_stops_a_fall() {
    // No tiles at all: the play-field boundary itself stops the fall.
    let tiles: Vec<(BBox, TileID)> = vec![];
    let mut e = Entity::walker(5000, WIN_H - 560 - 10);
    e.update(&tiles);
    assert_eq!(e.body.y, WIN_H - 560);
    assert_eq!(e.v.y, 0);
}

#[test]
fn entity_colors_are_fixed() {
    let w = Entity::walker(0, 0);
    let c = w.get_color();
    assert_eq!((c.r, c.g, c.b, c.a), (225, 50, 150, 255));
    let j = Entity::jumper(0, 0);
    let cj = j.get_color();
    assert_eq!((cj.r, cj.g, cj.b, cj.a), (255, 100, 50, 255));
    let s = Entity::sitter(0, 0);
    let cs = s.get_color();
    assert_eq!((cs.r, cs.g, cs.b, cs.a), (225, 150, 50, 255));
}

#[test]
fn tile_colors_are_fixed() {
    let c = TileID::Blck.get_color();
    assert_eq!((c.r, c.g, c.b, c.a), (100, 105, 125, 255));
    let v = TileID::VPad.get_color();
    assert_eq!((v.r, v.g, v.b, v.a), (25, 255, 200, 255));
    let h = TileID::HPad.get_color();
    assert_eq!((h.r, h.g, h.b, h.a), (25, 200, 255, 255));
    let l = TileID::Ladr.get_color();
    assert_eq!((l.r, l.g, l.b, l.a), (255, 225, 125, 255));
}
