//! The ship's shield as an entity of its own, and the glow that shows while
//! the ship has shield left.

use vstd::prelude::*;
use crate::collision::{Collider, CollisionLayer, CollisionMask};
use crate::geometry::CollisionShape;

verus! {

/// A shield that circles the ship.
#[derive(Clone, Copy, PartialEq, Eq, Structural, Debug)]
pub struct Shield {
    pub health: i32,
    pub max_health: i32,
    /// Speed of its rotation, in angle units per second.
    pub rotation_speed: u32,
}

impl Default for Shield {
    /// Three points of health, turning at one radian per second.
    fn default() -> (shield: Shield)
        ensures
            shield == (Shield { health: 3, max_health: 3, rotation_speed: 57_296 }),
    {
        Shield { health: 3, max_health: 3, rotation_speed: 57_296 }
    }
}

/// Radius of the collision circle of the shield.
pub const SHIELD_RADIUS: u32 = 25_000;

/// A shield for the ship: at full health, with a collision circle on the ship's layer.
pub fn spawn_player_shield() -> (shield: (Shield, Collider))
    ensures
        shield.0 == (Shield { health: 3, max_health: 3, rotation_speed: 57_296 }),
        shield.1.shape == (CollisionShape::Circle { radius: SHIELD_RADIUS }),
        shield.1.layer == CollisionLayer::Player,
        forall|layer: CollisionLayer|
            shield.1.mask.permits(layer) <==> (layer == CollisionLayer::Enemy || layer
                == CollisionLayer::EnemyBullet || layer == CollisionLayer::PowerUp),
{
    (
        Shield { health: 3, max_health: 3, rotation_speed: 57_296 },
        Collider {
            shape: CollisionShape::Circle { radius: SHIELD_RADIUS },
            layer: CollisionLayer::Player,
            mask: CollisionMask::player_mask(),
        },
    )
}

/// Whether the shield is removed: it has no health left.
pub fn update_shield(shield: &Shield) -> (gone: bool)
    ensures
        gone == (shield.health <= 0),
{
    shield.health <= 0
}

/// The angle of the shield after a frame, kept within one turn.
pub open spec fn rotated(angle: int, shield: Shield, delta: int) -> int {
    (angle + shield.rotation_speed * delta / 1_000_000) % 360_000
}

/// Turns the shield for one frame.
pub fn shield_rotation(angle: i32, shield: &Shield, delta: u32) -> (turned: i32)
    ensures
        turned == rotated(angle as int, *shield, delta as int),
        0 <= turned < 360_000,
{
    assert(shield.rotation_speed * delta <= 0xffff_ffff * 0xffff_ffff) by (nonlinear_arith)
        requires
            0 <= shield.rotation_speed <= 0xffff_ffff,
            0 <= delta <= 0xffff_ffff,
    ;
    let way: i64 = (shield.rotation_speed as u64 * delta as u64 / 1_000_000) as i64;
    ((angle as i64 + way + 6000 * 360_000) % 360_000) as i32
}

/// What to do about the glow around the ship.
#[derive(Clone, Copy, PartialEq, Eq, Structural, Debug)]
pub enum ShieldVfx {
    /// Remove every glow.
    Remove,
    /// Leave things as they are.
    Keep,
    /// Add the glow.
    Add,
}

/// Decides about the glow: without a ship or without shield it is removed;
/// with both it is added unless it is there.
pub fn update_player_shield_vfx(player_present: bool, shield: u32, glow_present: bool) -> (action: ShieldVfx)
    ensures
        action == if !player_present || shield == 0 {
            ShieldVfx::Remove
        } else if glow_present {
            ShieldVfx::Keep
        } else {
            ShieldVfx::Add
        },
{
    if !player_present || shield == 0 {
        ShieldVfx::Remove
    } else if glow_present {
        ShieldVfx::Keep
    } else {
        ShieldVfx::Add
    }
}

} // verus!
