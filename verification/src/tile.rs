use vstd::prelude::*;
use crate::config::POS_LIMIT;
use crate::entity::{Entity, EntityKind, EntityModel};
use crate::geometry::BBox;

verus! {

/// An RGBA color.
#[derive(Clone, Copy, PartialEq, Eq, Structural, Debug)]
pub struct Color {
    pub r: u8,
    pub g: u8,
    pub b: u8,
    pub a: u8,
}

impl Color {
    /// Returns a new color with the given channels.
    pub fn new(r: u8, g: u8, b: u8, a: u8) -> (c: Self)
        ensures
            c.r == r,
            c.g == g,
            c.b == b,
            c.a == a,
    {
        Color { r, g, b, a }
    }
}

/// Velocity magnitude a launch pad imparts.
pub const PAD_V: i32 = 500;

/// The identity of a static tile, deciding its color and its contact
/// reaction.
#[derive(Clone, Copy, PartialEq, Eq, Structural, Debug)]
pub enum TileID {
    /// Plain solid block: contact has no effect beyond the positional
    /// resolution the collision sweep already applied.
    Blck,
    /// Vertical launch pad: throws the entity away vertically.
    VPad,
    /// Horizontal launch pad: throws the entity away horizontally.
    HPad,
    /// Ladder: marks the entity as grounded so it may jump off.
    Ladr,
    /// Hazard: kills the entity on contact.
    Fire,
}

/// True when the body center of `e` lies strictly above the vertical center
/// of box `b`. Compared on doubled coordinates, so the midpoints are exact.
pub open spec fn center_above(e: EntityModel, b: BBox) -> bool {
    2 * e.y + e.s < b.y + b.b
}

/// True when the body center of `e` lies strictly left of the horizontal
/// center of box `b`. Compared on doubled coordinates, so the midpoints are
/// exact.
pub open spec fn center_left_of(e: EntityModel, b: BBox) -> bool {
    2 * e.x + e.s < b.x + b.a
}

/// What contact with a tile of identity `t` and bound `b` does to an entity.
/// The entity's position is untouched: tiles only change velocity, the
/// grounded flag, or liveness.
pub open spec fn tile_reaction(t: TileID, b: BBox, e: EntityModel) -> EntityModel {
    match t {
        TileID::Blck => e,
        TileID::VPad => EntityModel {
            vy: if center_above(e, b) {
                -PAD_V as int
            } else {
                PAD_V as int
            },
            on_ground: false,
            ..e
        },
        TileID::HPad => EntityModel {
            vx: if center_left_of(e, b) {
                -PAD_V as int
            } else {
                PAD_V as int
            },
            ..e
        },
        TileID::Ladr => EntityModel { on_ground: true, ..e },
        TileID::Fire => EntityModel { alive: false, ..e },
    }
}

impl TileID {
    /// Returns the tile's display color.
    pub fn get_color(self) -> (c: Color)
        ensures
            c == tile_color(self),
    {
        match self {
            TileID::Blck => Color { r: 100, g: 105, b: 125, a: 255 },
            TileID::VPad => Color { r: 25, g: 255, b: 200, a: 255 },
            TileID::HPad => Color { r: 25, g: 200, b: 255, a: 255 },
            TileID::Ladr => Color { r: 255, g: 225, b: 125, a: 255 },
            TileID::Fire => Color { r: 255, g: 80, b: 40, a: 255 },
        }
    }

    /// Applies the tile's contact reaction to the entity. A vertical pad
    /// launches the entity away from the pad's center: upward when the body
    /// center is strictly above it, downward otherwise; it also clears the
    /// grounded flag so standing on the pad never counts as a normal stand.
    /// A horizontal pad does the same on the x axis. A ladder grounds the
    /// entity, a hazard kills it, and a plain block does nothing.
    pub fn do_collision(self, b: &BBox, e: &mut Entity)
        requires
            old(e)@.kind != EntityKind::Sitter,
            -POS_LIMIT <= old(e)@.x <= POS_LIMIT,
            -POS_LIMIT <= old(e)@.y <= POS_LIMIT,
            0 <= old(e)@.s <= POS_LIMIT,
            -POS_LIMIT <= b.x <= POS_LIMIT,
            -POS_LIMIT <= b.y <= POS_LIMIT,
            -POS_LIMIT <= b.a <= POS_LIMIT,
            -POS_LIMIT <= b.b <= POS_LIMIT,
        ensures
            final(e)@ == tile_reaction(self, *b, old(e)@),
    {
        match self {
            TileID::Blck => {},
            TileID::VPad => {
                let above = 2 * e.body.y + e.body.s < b.y + b.b;
                e.set_vy(if above { -PAD_V } else { PAD_V });
                e.set_on_ground(false);
            },
            TileID::HPad => {
                let left = 2 * e.body.x + e.body.s < b.x + b.a;
                e.set_vx(if left { -PAD_V } else { PAD_V });
            },
            TileID::Ladr => {
                e.set_on_ground(true);
            },
            TileID::Fire => {
                e.kill();
            },
        }
    }
}

/// The display color bound to each tile identity.
pub open spec fn tile_color(t: TileID) -> Color {
    match t {
        TileID::Blck => Color { r: 100, g: 105, b: 125, a: 255 },
        TileID::VPad => Color { r: 25, g: 255, b: 200, a: 255 },
        TileID::HPad => Color { r: 25, g: 200, b: 255, a: 255 },
        TileID::Ladr => Color { r: 255, g: 225, b: 125, a: 255 },
        TileID::Fire => Color { r: 255, g: 80, b: 40, a: 255 },
    }
}

/// Contact with a vertical launch pad sends an entity whose body center is
/// strictly above the pad's center upward, and one strictly below it
/// downward, always at the pad's fixed speed, and in either case the entity
/// no longer counts as grounded.
pub proof fn lemma_vpad_sign_rule(b: BBox, e: EntityModel)
    ensures
        2 * e.y + e.s < b.y + b.b ==> tile_reaction(TileID::VPad, b, e).vy == -PAD_V,
        2 * e.y + e.s > b.y + b.b ==> tile_reaction(TileID::VPad, b, e).vy == PAD_V,
        !tile_reaction(TileID::VPad, b, e).on_ground,
{
}

} // verus!
