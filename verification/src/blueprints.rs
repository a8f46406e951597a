//! The catalogue of entity outlines. The library knows each outline by name and
//! by the circle that stands for it in collisions; how it is drawn is the host's affair.

use vstd::prelude::*;
use crate::collision::{Collider, CollisionLayer, CollisionMask};
use crate::geometry::CollisionShape;

verus! {

/// Name of an outline.
#[derive(Clone, Copy, PartialEq, Eq, Structural, Debug)]
pub enum Blueprint {
    PlayerRaidenMk1,
    DefaultPlayer,
    DefaultEnemy,
    HexagonEnemy,
    DefaultBullet,
    EnemyBullet,
    EnemyBulletRing,
    EnemyBulletNeedle,
    RaidenEnemyDroneSmall,
    RaidenEnemyTank,
    RaidenMissile,
    EliteScout,
    EliteGunship,
    EliteGuard,
    DefaultShield,
    PowerUp,
    PowerUpCoin,
    PowerUpShield,
    PowerUpHeart,
}

impl Blueprint {
    /// Radius of the outline's collision circle.
    pub open spec fn radius(self) -> int {
        match self {
            Blueprint::PlayerRaidenMk1 => 18_000,
            Blueprint::DefaultPlayer => 15_000,
            Blueprint::DefaultEnemy => 16_000,
            Blueprint::HexagonEnemy => 20_000,
            Blueprint::DefaultBullet => 6_000,
            Blueprint::EnemyBullet => 5_000,
            Blueprint::EnemyBulletRing => 7_500,
            Blueprint::EnemyBulletNeedle => 6_500,
            Blueprint::RaidenEnemyDroneSmall => 14_000,
            Blueprint::RaidenEnemyTank => 22_000,
            Blueprint::RaidenMissile => 14_000,
            Blueprint::EliteScout => 26_000,
            Blueprint::EliteGunship => 30_000,
            Blueprint::EliteGuard => 30_000,
            Blueprint::DefaultShield => 25_000,
            Blueprint::PowerUp => 12_000,
            Blueprint::PowerUpCoin => 10_000,
            Blueprint::PowerUpShield => 14_000,
            Blueprint::PowerUpHeart => 12_000,
        }
    }

    /// Radius of the outline's collision circle.
    pub fn collision_radius(&self) -> (radius: u32)
        ensures
            radius == self.radius(),
    {
        match self {
            Blueprint::PlayerRaidenMk1 => 18_000,
            Blueprint::DefaultPlayer => 15_000,
            Blueprint::DefaultEnemy => 16_000,
            Blueprint::HexagonEnemy => 20_000,
            Blueprint::DefaultBullet => 6_000,
            Blueprint::EnemyBullet => 5_000,
            Blueprint::EnemyBulletRing => 7_500,
            Blueprint::EnemyBulletNeedle => 6_500,
            Blueprint::RaidenEnemyDroneSmall => 14_000,
            Blueprint::RaidenEnemyTank => 22_000,
            Blueprint::RaidenMissile => 14_000,
            Blueprint::EliteScout => 26_000,
            Blueprint::EliteGunship => 30_000,
            Blueprint::EliteGuard => 30_000,
            Blueprint::DefaultShield => 25_000,
            Blueprint::PowerUp => 12_000,
            Blueprint::PowerUpCoin => 10_000,
            Blueprint::PowerUpShield => 14_000,
            Blueprint::PowerUpHeart => 12_000,
        }
    }

    /// The outline's collision circle.
    pub fn collision(&self) -> (shape: CollisionShape)
        ensures
            shape == (CollisionShape::Circle { radius: self.radius() as u32 }),
    {
        CollisionShape::Circle { radius: self.collision_radius() }
    }

    /// A collider with the outline's circle on `layer`, reacting as `mask` says.
    pub fn collider(&self, layer: CollisionLayer, mask: CollisionMask) -> (collider: Collider)
        ensures
            collider == (Collider { shape: CollisionShape::Circle { radius: self.radius() as u32 }, layer, mask }),
    {
        Collider { shape: self.collision(), layer, mask }
    }
}

} // verus!
