//! Projectiles in flight: how each kind moves from frame to frame and when it is removed.

use vstd::prelude::*;
use crate::aim::div_toward_zero;
use crate::geometry::Vec2D;
use crate::motion::{advance, advanced, out_of_bounds, outside, scale_to, scaled_to};
use crate::projectiles::{Bullet, BossBullet, EffectLifetime, HomingMissile, WeaponBullet};
use crate::states::{min_int, GameConfig};

verus! {

/// Distance beyond the window's edge at which projectiles are removed.
pub const BULLET_MARGIN: u32 = 50_000;

/// Moves a plain bullet for one frame. Returns where it is then.
pub fn update_bullet(position: Vec2D, bullet: &Bullet, delta: u32) -> (moved: Vec2D)
    ensures
        moved == advanced(position, bullet.velocity, delta as int),
{
    advance(position, bullet.velocity, delta)
}

/// Whether a plain bullet has left the window by more than 50 pixels.
pub fn bullet_offscreen(config: &GameConfig, position: Vec2D) -> (gone: bool)
    ensures
        gone == outside(*config, position, BULLET_MARGIN as int),
{
    out_of_bounds(config, position, BULLET_MARGIN)
}

/// What a frame does to a projectile with a lifetime.
#[derive(Clone, Copy, PartialEq, Eq, Structural, Debug)]
pub struct Flight {
    pub position: Vec2D,
    /// Whether the projectile is removed.
    pub despawn: bool,
}

/// A projectile with `lifetime` left at `position` after a frame: when its
/// time is up it is removed where it is; else it moves on, and is removed when
/// it has left the window by more than 50 pixels.
pub open spec fn flown(config: GameConfig, position: Vec2D, velocity: Vec2D, lifetime: int, delta: int) -> Flight {
    if lifetime - delta <= 0 {
        Flight { position, despawn: true }
    } else {
        let moved = advanced(position, velocity, delta);
        Flight { position: moved, despawn: outside(config, moved, BULLET_MARGIN as int) }
    }
}

/// Moves a weapon's projectile for one frame.
pub fn update_weapon_bullet(config: &GameConfig, position: Vec2D, bullet: &mut WeaponBullet, delta: u32) -> (flight:
    Flight)
    requires
        old(bullet).lifetime - delta >= i64::MIN,
    ensures
        *final(bullet) == (WeaponBullet { lifetime: (old(bullet).lifetime - delta) as i64, ..*old(bullet) }),
        flight == flown(*config, position, old(bullet).velocity, old(bullet).lifetime as int, delta as int),
{
    bullet.lifetime -= delta as i64;
    if bullet.lifetime <= 0 {
        return Flight { position, despawn: true };
    }
    let moved = advance(position, bullet.velocity, delta);
    Flight { position: moved, despawn: out_of_bounds(config, moved, BULLET_MARGIN) }
}

/// Moves a boss's shot for one frame.
pub fn update_boss_bullet(config: &GameConfig, position: Vec2D, bullet: &mut BossBullet, delta: u32) -> (flight: Flight)
    requires
        old(bullet).lifetime - delta >= i64::MIN,
    ensures
        *final(bullet) == (BossBullet { lifetime: (old(bullet).lifetime - delta) as i64, ..*old(bullet) }),
        flight == flown(*config, position, old(bullet).velocity, old(bullet).lifetime as int, delta as int),
{
    bullet.lifetime -= delta as i64;
    if bullet.lifetime <= 0 {
        return Flight { position, despawn: true };
    }
    let moved = advance(position, bullet.velocity, delta);
    Flight { position: moved, despawn: out_of_bounds(config, moved, BULLET_MARGIN) }
}

/// Lets the time of an effect run down. Returns whether the effect is removed.
pub fn update_effect_lifetime(effect: &mut EffectLifetime, delta: u32) -> (gone: bool)
    requires
        old(effect).remaining - delta >= i64::MIN,
    ensures
        final(effect).remaining == old(effect).remaining - delta,
        gone == (old(effect).remaining - delta <= 0),
{
    effect.remaining -= delta as i64;
    effect.remaining <= 0
}

/// The share of the way towards the wanted velocity that a missile turns in
/// `delta` microseconds, in thousandths: the turn rate times the time, at most all of it.
pub open spec fn turn_share(turn_rate: int, delta: int) -> int {
    min_int(turn_rate * delta / 1_000_000, 1000)
}

/// A component of a velocity moved by `share` thousandths towards `wanted`.
pub open spec fn blended(current: int, wanted: int, share: int) -> int {
    current + div_toward_zero((wanted - current) * share, 1000)
}

/// The velocity of a homing missile after a frame. With a target at `target`
/// it turns towards it by its share; in any case it then takes its own speed
/// again, and where it has no direction left it flies straight up.
pub open spec fn steered(
    position: Vec2D,
    velocity: Vec2D,
    homing: HomingMissile,
    target: Option<Vec2D>,
    delta: int,
) -> Vec2D {
    let turned = match target {
        Some(t) => {
            let wanted = crate::motion::aimed(position, t, homing.speed as int);
            let share = turn_share(homing.turn_rate as int, delta);
            Vec2D {
                x: blended(velocity.x as int, wanted.x as int, share) as i32,
                y: blended(velocity.y as int, wanted.y as int, share) as i32,
            }
        },
        None => velocity,
    };
    if turned.x == 0 && turned.y == 0 {
        Vec2D { x: 0, y: homing.speed as i32 }
    } else {
        let kept = scaled_to(turned, homing.speed as int);
        if kept.x == 0 && kept.y == 0 {
            Vec2D { x: 0, y: homing.speed as i32 }
        } else {
            kept
        }
    }
}

fn blend(current: i32, wanted: i32, share: u32) -> (mixed: i32)
    requires
        share <= 1000,
        i32::MIN < current,
        i32::MIN < wanted,
    ensures
        mixed == blended(current as int, wanted as int, share as int),
        i32::MIN < mixed,
{
    let gap: i64 = wanted as i64 - current as i64;
    let magnitude: i64 = if gap >= 0 {
        gap
    } else {
        -gap
    };
    assert(0 <= magnitude * share <= magnitude * 1000) by (nonlinear_arith)
        requires
            0 <= magnitude,
            0 <= share <= 1000,
    ;
    let part: i64 = magnitude * (share as i64) / 1000;
    assert(part <= magnitude);
    proof {
        if gap >= 0 {
            assert(gap * share >= 0) by (nonlinear_arith)
                requires
                    gap >= 0,
                    share >= 0,
            ;
        } else {
            assert(gap * share == -(magnitude * share)) by (nonlinear_arith)
                requires
                    magnitude == -gap,
            ;
            if share == 0 {
                assert(gap * share == 0) by (nonlinear_arith)
                    requires
                        share == 0,
                ;
            } else {
                assert(gap * share < 0) by (nonlinear_arith)
                    requires
                        gap < 0,
                        share > 0,
                ;
            }
        }
    }
    if gap >= 0 {
        (current as i64 + part) as i32
    } else {
        (current as i64 - part) as i32
    }
}

/// Steers a homing missile for one frame. Returns its new velocity.
pub fn steer(position: Vec2D, velocity: Vec2D, homing: &HomingMissile, target: Option<Vec2D>, delta: u32) -> (turned:
    Vec2D)
    requires
        homing.speed <= i32::MAX,
        i32::MIN < velocity.x,
        i32::MIN < velocity.y,
        crate::motion::within_aim(position),
        target matches Some(t) ==> crate::motion::within_aim(t),
    ensures
        turned == steered(position, velocity, *homing, target, delta as int),
{
    let turned = match target {
        Some(t) => {
            let wanted = crate::motion::aim_at(position, t, homing.speed);
            proof {
                crate::motion::lemma_aimed_bounded(
                    Vec2D { x: (t.x - position.x) as i32, y: (t.y - position.y) as i32 },
                    homing.speed as int,
                );
            }
            assert(homing.turn_rate * delta <= 0xffff_ffff * 0xffff_ffff) by (nonlinear_arith)
                requires
                    0 <= homing.turn_rate <= 0xffff_ffff,
                    0 <= delta <= 0xffff_ffff,
            ;
            let product = homing.turn_rate as u64 * delta as u64 / 1_000_000;
            let share: u32 = if product > 1000 {
                1000
            } else {
                product as u32
            };
            Vec2D { x: blend(velocity.x, wanted.x, share), y: blend(velocity.y, wanted.y, share) }
        },
        None => velocity,
    };
    if turned.x == 0 && turned.y == 0 {
        return Vec2D { x: 0, y: homing.speed as i32 };
    }
    let kept = scale_to(turned, homing.speed);
    if kept.x == 0 && kept.y == 0 {
        Vec2D { x: 0, y: homing.speed as i32 }
    } else {
        kept
    }
}

/// The nearest of the allowed points among the first `upto`; of several that are equally near, the first.
pub open spec fn closest_upto(points: Seq<Vec2D>, allowed: Seq<bool>, from: Vec2D, upto: int) -> Option<usize>
    decreases upto,
{
    if upto <= 0 {
        None
    } else {
        let before = closest_upto(points, allowed, from, upto - 1);
        let last = upto - 1;
        if allowed[last] && (before matches Some(b) ==> points[last].dist_sq(from) < points[b as int].dist_sq(from)) {
            Some(last as usize)
        } else {
            before
        }
    }
}

/// What `closest_upto` finds is allowed and no allowed point is nearer, nor
/// equally near and earlier; it finds nothing only if no point is allowed.
pub proof fn lemma_closest(points: Seq<Vec2D>, allowed: Seq<bool>, from: Vec2D, upto: int)
    requires
        0 <= upto <= points.len(),
        points.len() == allowed.len(),
        points.len() <= usize::MAX,
    ensures
        match closest_upto(points, allowed, from, upto) {
            Some(i) => {
                &&& i < upto
                &&& allowed[i as int]
                &&& forall|j: int|
                    0 <= j < upto && #[trigger] allowed[j] ==> {
                        let d_i = points[i as int].dist_sq(from);
                        let d_j = points[j].dist_sq(from);
                        d_i < d_j || (d_i == d_j && i <= j)
                    }
            },
            None => forall|j: int| 0 <= j < upto ==> !#[trigger] allowed[j],
        },
    decreases upto,
{
    if upto > 0 {
        lemma_closest(points, allowed, from, upto - 1);
    }
}

/// The nearest of the allowed points to `from`.
pub fn closest_of(points: &Vec<Vec2D>, allowed: &Vec<bool>, from: Vec2D) -> (found: Option<usize>)
    requires
        points@.len() == allowed@.len(),
    ensures
        found == closest_upto(points@, allowed@, from, points@.len() as int),
{
    let mut best: Option<usize> = None;
    let mut best_distance: u128 = 0;
    let mut i: usize = 0;
    while i < points.len()
        invariant
            i <= points@.len(),
            points@.len() == allowed@.len(),
            best == closest_upto(points@, allowed@, from, i as int),
            best matches Some(b) ==> b < i && best_distance == points@[b as int].dist_sq(from),
        decreases points@.len() - i,
    {
        if allowed[i] {
            let distance = points[i].distance_squared(from);
            let nearer = match best {
                Some(_) => distance < best_distance,
                None => true,
            };
            if nearer {
                best = Some(i);
                best_distance = distance;
            }
        }
        i = i + 1;
    }
    best
}

} // verus!
