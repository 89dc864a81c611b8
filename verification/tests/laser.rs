use platcore::config::{WIN_H, WIN_W};
use platcore::geometry::{BBox, Square, Vec2};
use platcore::laser::{Direction, Laser};
use platcore::tile::TileID;

#[test]
fn laser_clips_to_the_nearest_blocking_tile() {
    // One solid tile spanning x in [100, 200], y in [40, 60]; a rightward
    // ray from (0, 50) must stop at (100, 50), not the field edge.
    let tiles: Vec<(BBox, TileID)> = vec![(BBox::new(100, 40, 200, 60), TileID::Blck)];
    let l = Laser::new(Vec2::new(0, 50), Direction::Right, &tiles);
    assert_eq!(l.end.x, 100);
    assert_eq!(l.end.y, 50);
    assert_eq!(l.time, 255);
}

#[test]
fn laser_reaches_the_field_edge_when_unblocked() {
    let tiles: Vec<(BBox, TileID)> = vec![(BBox::new(100, 40, 200, 60), TileID::Blck)];
    // The tile does not cover y = 70, so the ray passes it.
    let l = Laser::new(Vec2::new(0, 70), Direction::Right, &tiles);
    assert_eq!(l.end.x, WIN_W);
    assert_eq!(l.end.y, 70);
}

#[test]
fn laser_clips_in_all_four_directions() {
    let tiles: Vec<(BBox, TileID)> = vec![
        (BBox::new(1000, 4000, 2000, 6000), TileID::Ladr),
        (BBox::new(9000, 4000, 10000, 6000), TileID::VPad),
        (BBox::new(4000, 1000, 6000, 2000), TileID::HPad),
        (BBox::new(4000, 9000, 6000, 10000), TileID::Fire),
    ];
    let beg = Vec2::new(5000, 5000);
    // Every tile blocks the ray, whatever its identity.
    let left = Laser::new(beg, Direction::Left, &tiles);
    assert_eq!((left.end.x, left.end.y), (2000, 5000));
    let right = Laser::new(beg, Direction::Right, &tiles);
    assert_eq!((right.end.x, right.end.y), (9000, 5000));
    let up = Laser::new(beg, Direction::Up, &tiles);
    assert_eq!((up.end.x, up.end.y), (5000, 2000));
    let down = Laser::new(beg, Direction::Down, &tiles);
    assert_eq!((down.end.x, down.end.y), (5000, 9000));
}

#[test]
fn laser_picks_the_nearest_of_several_blockers() {
    let tiles: Vec<(BBox, TileID)> = vec![
        (BBox::new(8000, 4000, 9000, 6000), TileID::Blck),
        (BBox::new(6000, 4000, 7000, 6000), TileID::Blck),
    ];
    let l = Laser::new(Vec2::new(0, 5000), Direction::Right, &tiles);
    assert_eq!(l.end.x, 6000);
}

#[test]
fn laser_life_decays_to_zero_in_exactly_seventeen_ticks() {
    let tiles: Vec<(BBox, TileID)> = vec![];
    let mut l = Laser::new(Vec2::new(0, 5000), Direction::Down, &tiles);
    assert_eq!(l.time, 255);
    // ceil(255 / 15) = 17 ticks to exhaustion, and never below zero.
    for k in 1..=16 {
        l.update();
        assert_eq!(l.time, 255 - 15 * k);
        assert!(l.is_active());
    }
    l.update();
    assert_eq!(l.time, 0);
    assert!(!l.is_active());
    l.update();
    assert_eq!(l.time, 0);
}

#[test]
fn inactive_laser_hits_nothing() {
    let l = Laser::new_inactive();
    assert!(!l.is_active());
    let q = Square::new(0, 0, 100);
    assert!(!l.hits_square(&q));
}

#[test]
fn active_laser_hits_squares_on_its_path() {
    let l = Laser {
        beg: Vec2::new(0, 5000),
        end: Vec2::new(16000, 5000),
        time: 255,
    };
    // On the ray.
    assert!(l.hits_square(&Square::new(8000, 4800, 400)));
    // Touching the ray's edge counts.
    assert!(l.hits_square(&Square::new(8000, 5000, 400)));
    // Clear of the ray.
    assert!(!l.hits_square(&Square::new(8000, 5100, 400)));
    assert!(!l.hits_square(&Square::new(8000, 3000, 400)));
}

#[test]
fn laser_down_is_bounded_by_field_height() {
    let tiles: Vec<(BBox, TileID)> = vec![];
    let l = Laser::new(Vec2::new(300, 200), Direction::Down, &tiles);
    assert_eq!((l.end.x, l.end.y), (300, WIN_H));
}
