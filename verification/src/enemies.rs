use vstd::prelude::*;
use crate::entity::{entity_wf, hostile_frame, tiles_wf, Entity, EntityKind, EntityModel};
use crate::geometry::BBox;
use crate::laser::{laser_hits_at, laser_in_range, Laser};
use crate::player::Player;
use crate::tile::TileID;

verus! {

/// The active hostile collection of the current level.
pub type EnemyVec = Vec<Entity>;

/// The mathematical states of a list of entities.
pub open spec fn models(es: Seq<Entity>) -> Seq<EntityModel> {
    es.map_values(|e: Entity| e@)
}

/// Every entity in the list is a well-formed hostile.
pub open spec fn enemies_wf(es: Seq<Entity>) -> bool {
    forall|i: int|
        0 <= i < es.len() ==> entity_wf((#[trigger] es[i])@) && es[i]@.kind != EntityKind::Player
}

/// Whether an updated hostile stays in the active set: it must still be
/// alive and not be hit by the player's laser.
pub open spec fn enemy_keep(m: EntityModel, l: Laser) -> bool {
    m.alive && !laser_hits_at(l, m.x, m.y, m.s)
}

/// The hostile states after one frame: each of the first `n` entities takes
/// its own tick, and those killed by it or overlapped by the active laser
/// are dropped, order otherwise kept.
pub open spec fn surviving(
    es: Seq<Entity>,
    l: Laser,
    tiles: Seq<(BBox, TileID)>,
    n: int,
) -> Seq<EntityModel>
    decreases n,
{
    if n <= 0 {
        Seq::empty()
    } else {
        let prev = surviving(es, l, tiles, n - 1);
        let m = hostile_frame(es[n - 1]@, tiles);
        if enemy_keep(m, l) {
            prev.push(m)
        } else {
            prev
        }
    }
}

/// The pruning is complete: every hostile that survives a frame is alive and
/// is not overlapped by the player's laser.
pub proof fn lemma_surviving_kept(es: Seq<Entity>, l: Laser, tiles: Seq<(BBox, TileID)>, n: int)
    requires
        0 <= n <= es.len(),
    ensures
        forall|j: int|
            0 <= j < surviving(es, l, tiles, n).len() ==> enemy_keep(
                #[trigger] surviving(es, l, tiles, n)[j],
                l,
            ),
    decreases n,
{
    if n > 0 {
        lemma_surviving_kept(es, l, tiles, n - 1);
        let prev = surviving(es, l, tiles, n - 1);
        let m = hostile_frame(es[n - 1]@, tiles);
        if enemy_keep(m, l) {
            assert forall|j: int| 0 <= j < prev.push(m).len() implies enemy_keep(
                #[trigger] prev.push(m)[j],
                l,
            ) by {
                if j < prev.len() {
                    assert(prev.push(m)[j] == prev[j]);
                } else {
                    assert(prev.push(m)[j] == m);
                }
            }
        }
    }
}

/// One frame of the hostile set: every hostile takes its own tick against
/// the level geometry, then the dead ones and the ones overlapped by the
/// player's active laser are removed, in place, keeping order.
#[verifier::loop_isolation(false)]
pub fn update_enemies(es: &mut EnemyVec, p: &Player, tiles: &Vec<(BBox, TileID)>)
    requires
        enemies_wf(old(es)@),
        tiles_wf(tiles@),
        laser_in_range(p.laser),
    ensures
        models(final(es)@) == surviving(old(es)@, p.laser, tiles@, old(es)@.len() as int),
        enemies_wf(final(es)@),
{
    let mut out: EnemyVec = Vec::new();
    let n = es.len();
    let mut i: usize = 0;
    assert(models(out@) =~= surviving(es@, p.laser, tiles@, 0));
    while i < n
        invariant
            i <= n,
            models(out@) == surviving(es@, p.laser, tiles@, i as int),
            enemies_wf(out@),
        decreases n - i,
    {
        let mut en = es[i];
        en.update(tiles);
        let hit = p.get_laser().hits_square(&en.get_body());
        let ghost before = out@;
        if en.is_alive() && !hit {
            out.push(en);
            assert(models(out@) =~= models(before).push(en@));
        }
        assert(models(out@) =~= surviving(es@, p.laser, tiles@, i + 1));
        i = i + 1;
    }
    *es = out;
}

} // verus!
