//! What bosses and enemies do from frame to frame: they take their place,
//! move, and fire when their timers run out.

use vstd::prelude::*;
use crate::aim::{fan_angle, fan_direction};
use crate::blueprints::Blueprint;
use crate::boss::{boss_attack_cooldown, phase_for, Boss, BossState};
use crate::collision::{hitbox_on, CollisionEvent, CollisionLayer, Hitbox};
use crate::combat::{find_projectile, projectile_index, views, Projectile, ProjectileView};
use crate::enemy::{Enemy, EnemyMovement, EnemyType};
use crate::geometry::Vec2D;
use crate::motion::{advance_coordinate, advanced_by};
use crate::random::roll_ratio;
use crate::states::GameConfig;
use crate::volleys::{after_volley, draws_valid, execute_boss_attack, volley, BossShot};
use crate::weapons::WeaponType;

verus! {

/// Speed at which a boss comes down to its place, and an enemy to its post.
pub const DESCENT_SPEED: i64 = 100_000;

/// Speed at which a boss sways from side to side, in angle units per second: half a radian.
pub const SWAY_SPEED: u64 = 28_648;

/// How far a boss sways to either side.
pub const SWAY_REACH: u32 = 150_000;

/// What a frame did to a boss.
#[derive(Debug)]
pub struct BossMove {
    /// Height of the boss after the frame.
    pub y: i32,
    /// Where the boss is in its swaying, as an angle: its place sideways is
    /// the sine of it times `SWAY_REACH`. Nothing while the boss comes down.
    pub sway: Option<u64>,
    /// The shots that the boss fired.
    pub shots: Vec<BossShot>,
}

/// Height at which a boss takes its place: 120 pixels below the window's top edge.
pub open spec fn boss_post(config: GameConfig) -> int {
    config.window_height / 2 - 120_000
}

/// The boss as the frame finds it for a volley: in the phase of its health,
/// its timers advanced.
pub open spec fn boss_readied(boss: Boss, delta: int) -> Boss {
    Boss {
        phase: phase_for(boss.health as int, boss.max_health as int) as u32,
        move_timer: (boss.move_timer + delta) as u64,
        attack_timer: (boss.attack_timer - delta) as i64,
        ..boss
    }
}

/// Whether the boss fires in this frame: it has taken its place and its timer runs out.
pub open spec fn boss_fires(boss: Boss, delta: int) -> bool {
    boss.entered && boss.attack_timer - delta <= 0
}

/// The boss after the frame. A boss that has not taken its place comes down,
/// and has taken it when it is no higher than its post. A boss in its place
/// takes the phase of its health; when it fires, it waits for the time of its phase again.
pub open spec fn boss_after(boss: Boss, config: GameConfig, y: int, delta: int) -> Boss {
    if !boss.entered {
        if y > boss_post(config) {
            boss
        } else {
            Boss { entered: true, ..boss }
        }
    } else {
        let readied = boss_readied(boss, delta);
        if boss_fires(boss, delta) {
            Boss {
                attack_timer: readied.boss_type.cooldown(readied.phase as int) as i64,
                ..after_volley(readied)
            }
        } else {
            readied
        }
    }
}

/// A boss in its place is, after the frame, in the phase of its health and of
/// nothing else: phase 1 above six tenths of its full health, phase 2 above
/// three tenths, else phase 3, whatever phase, pattern and timers it had.
/// Health and full health are as they were.
pub proof fn lemma_phase_after_frame(boss: Boss, other: Boss, config: GameConfig, y: int, delta: int)
    requires
        boss.entered,
        other.entered,
    ensures
        boss_after(boss, config, y, delta).phase == phase_for(boss.health as int, boss.max_health as int),
        1 <= boss_after(boss, config, y, delta).phase <= 3,
        boss_after(boss, config, y, delta).health == boss.health,
        boss_after(boss, config, y, delta).max_health == boss.max_health,
        boss.health == other.health && boss.max_health == other.max_health ==> boss_after(
            boss,
            config,
            y,
            delta,
        ).phase == boss_after(other, config, y, delta).phase,
{
}

/// Lets a boss act for one frame.
pub fn boss_behavior(boss: &mut Boss, boss_state: &mut BossState, config: &GameConfig, y: i32, delta: u32) -> (moved:
    BossMove)
    requires
        old(boss).max_health > 0,
        old(boss).attack_timer - delta >= i64::MIN,
        old(boss).move_timer + delta <= u64::MAX,
    ensures
        *final(boss) == boss_after(*old(boss), *config, y as int, delta as int),
        *final(boss_state) == if old(boss).entered {
            BossState { current_health: old(boss).health, ..*old(boss_state) }
        } else {
            *old(boss_state)
        },
        moved.y == if !old(boss).entered && y > boss_post(*config) {
            advanced_by(y as int, -DESCENT_SPEED, delta as int)
        } else {
            y as int
        },
        moved.sway == if old(boss).entered {
            Some(((old(boss).move_timer + delta) * SWAY_SPEED / 1_000_000) as u64)
        } else {
            None
        },
        !boss_fires(*old(boss), delta as int) ==> moved.shots@.len() == 0,
        boss_fires(*old(boss), delta as int) ==> exists|chaos: u32, angles: Seq<i32>, speeds: Seq<u32>|
            #![trigger draws_valid(boss_readied(*old(boss), delta as int), chaos, angles, speeds)]
            draws_valid(boss_readied(*old(boss), delta as int), chaos, angles, speeds) && moved.shots@ == volley(
                boss_readied(*old(boss), delta as int),
                chaos,
                angles,
                speeds,
            ),
{
    if !boss.entered {
        let post = (config.window_height / 2) as i64 - 120_000;
        if y as i64 > post {
            return BossMove { y: advance_coordinate(y, -DESCENT_SPEED, delta), sway: None, shots: Vec::new() };
        }
        boss.entered = true;
        return BossMove { y, sway: None, shots: Vec::new() };
    }
    boss.update_phase();
    boss_state.current_health = boss.health;
    boss.move_timer += delta as u64;
    let sway = ((boss.move_timer as u128 * SWAY_SPEED as u128) / 1_000_000) as u64;
    boss.attack_timer -= delta as i64;
    if boss.attack_timer <= 0 {
        let shots = execute_boss_attack(boss);
        boss.attack_timer = boss_attack_cooldown(boss.boss_type, boss.phase) as i64;
        BossMove { y, sway: Some(sway), shots }
    } else {
        BossMove { y, sway: Some(sway), shots: Vec::new() }
    }
}

/// The look of an enemy's bullet.
#[derive(Clone, Copy, PartialEq, Eq, Structural, Debug)]
pub enum EnemyBulletStyle {
    Shard,
    Needle,
    Ring,
}

/// A shot of an enemy.
#[derive(Clone, Copy, PartialEq, Eq, Structural, Debug)]
pub struct EnemyShot {
    /// Where it appears, relative to the enemy.
    pub offset: Vec2D,
    /// The direction in which it flies.
    pub heading: i32,
    pub speed: u32,
    pub damage: i32,
    pub style: EnemyBulletStyle,
}

impl EnemyBulletStyle {
    /// The outline of a bullet of this look.
    pub open spec fn outline(self) -> Blueprint {
        match self {
            EnemyBulletStyle::Shard => Blueprint::EnemyBullet,
            EnemyBulletStyle::Needle => Blueprint::EnemyBulletNeedle,
            EnemyBulletStyle::Ring => Blueprint::EnemyBulletRing,
        }
    }

    /// The outline of a bullet of this look.
    pub fn blueprint(&self) -> (blueprint: Blueprint)
        ensures
            blueprint == self.outline(),
    {
        match self {
            EnemyBulletStyle::Shard => Blueprint::EnemyBullet,
            EnemyBulletStyle::Needle => Blueprint::EnemyBulletNeedle,
            EnemyBulletStyle::Ring => Blueprint::EnemyBulletRing,
        }
    }
}

impl EnemyShot {
    /// The collider of the shot, as a value: the circle of its look, on the
    /// layer of the enemy bullets, reacting to the ship.
    pub open spec fn shot_hitbox(self) -> Hitbox {
        hitbox_on(CollisionLayer::EnemyBullet, self.style.outline().radius())
    }

    /// The collider of the shot.
    pub fn hitbox(&self) -> (hitbox: Hitbox)
        ensures
            hitbox == self.shot_hitbox(),
    {
        Hitbox::on(CollisionLayer::EnemyBullet, self.style.blueprint().collision_radius())
    }
}

/// How far below the enemy its shots appear.
pub const MUZZLE_DROP: i32 = -24_000;

/// `percent` hundredths of `speed`.
pub open spec fn share_of(speed: u32, percent: int) -> u32 {
    (speed * percent / 100) as u32
}

/// A shot from the enemy's muzzle.
pub open spec fn muzzle_shot(heading: int, speed: u32, style: EnemyBulletStyle) -> EnemyShot {
    EnemyShot { offset: Vec2D { x: 0, y: MUZZLE_DROP }, heading: heading as i32, speed, damage: 1, style }
}

/// The shots of the gunship: a fan of five, 0.375 radians to either side of
/// straight down, and one more from each flank, slanted outwards.
pub open spec fn gunship_shot(bullet_speed: u32, i: int) -> EnemyShot {
    if i < 5 {
        muzzle_shot(fan_angle(-90_000, 21_486, 5, i), share_of(bullet_speed, 60), EnemyBulletStyle::Shard)
    } else if i == 5 {
        EnemyShot {
            offset: Vec2D { x: -14_000i32, y: MUZZLE_DROP },
            heading: -104_036i32,
            speed: share_of(bullet_speed, 50),
            damage: 1,
            style: EnemyBulletStyle::Ring,
        }
    } else {
        EnemyShot {
            offset: Vec2D { x: 14_000, y: MUZZLE_DROP },
            heading: -75_964i32,
            speed: share_of(bullet_speed, 50),
            damage: 1,
            style: EnemyBulletStyle::Ring,
        }
    }
}

/// The volley of an enemy.
///
/// * Scout: three shots 0.18 radians apart around straight down, and a fast needle down the middle.
/// * Gunship: a fan of five and a shot from each flank.
/// * Guard: ten rings across the lower half-circle, 14 degrees apart.
/// * Hexagon: a ring straight down. Small: a needle. Diamond: a shard, or as drawn a needle.
pub open spec fn enemy_volley(enemy_type: EnemyType, bullet_speed: u32, needle: bool) -> Seq<EnemyShot> {
    match enemy_type {
        EnemyType::EliteScout => seq![
            muzzle_shot(-100_313, share_of(bullet_speed, 55), EnemyBulletStyle::Ring),
            muzzle_shot(-90_000, share_of(bullet_speed, 65), EnemyBulletStyle::Shard),
            muzzle_shot(-79_687, share_of(bullet_speed, 55), EnemyBulletStyle::Ring),
            muzzle_shot(-90_000, share_of(bullet_speed, 85), EnemyBulletStyle::Needle),
        ],
        EnemyType::EliteGunship => Seq::new(7, |i: int| gunship_shot(bullet_speed, i)),
        EnemyType::EliteGuard => Seq::new(
            10,
            |i: int| muzzle_shot(207_000 + 14_000 * i, share_of(bullet_speed, 42), EnemyBulletStyle::Ring),
        ),
        EnemyType::Hexagon => seq![muzzle_shot(-90_000, share_of(bullet_speed, 60), EnemyBulletStyle::Ring)],
        EnemyType::Small => seq![muzzle_shot(-90_000, share_of(bullet_speed, 60), EnemyBulletStyle::Needle)],
        EnemyType::Diamond => seq![
            muzzle_shot(
                -90_000,
                share_of(bullet_speed, 60),
                if needle {
                    EnemyBulletStyle::Needle
                } else {
                    EnemyBulletStyle::Shard
                },
            ),
        ],
    }
}

fn share(speed: u32, percent: u32) -> (part: u32)
    requires
        percent <= 100,
    ensures
        part == share_of(speed, percent as int),
{
    assert(speed * percent <= 0xffff_ffff * 100) by (nonlinear_arith)
        requires
            0 <= speed <= 0xffff_ffff,
            0 <= percent <= 100,
    ;
    (speed as u64 * percent as u64 / 100) as u32
}

fn muzzle(heading: i32, speed: u32, style: EnemyBulletStyle) -> (s: EnemyShot)
    ensures
        s == muzzle_shot(heading as int, speed, style),
{
    EnemyShot { offset: Vec2D { x: 0, y: MUZZLE_DROP }, heading, speed, damage: 1, style }
}

/// Every shot of an enemy deals one damage.
pub proof fn lemma_enemy_shots_deal_one(enemy_type: EnemyType, bullet_speed: u32, needle: bool, i: int)
    requires
        0 <= i < enemy_volley(enemy_type, bullet_speed, needle).len(),
    ensures
        enemy_volley(enemy_type, bullet_speed, needle)[i].damage == 1,
{
}

/// Fires the volley of an enemy of kind `enemy_type`.
pub fn plan_enemy_volley(enemy_type: EnemyType, bullet_speed: u32, needle: bool) -> (shots: Vec<EnemyShot>)
    ensures
        shots@ == enemy_volley(enemy_type, bullet_speed, needle),
{
    let mut shots: Vec<EnemyShot> = Vec::new();
    match enemy_type {
        EnemyType::EliteScout => {
            shots.push(muzzle(-100_313, share(bullet_speed, 55), EnemyBulletStyle::Ring));
            shots.push(muzzle(-90_000, share(bullet_speed, 65), EnemyBulletStyle::Shard));
            shots.push(muzzle(-79_687, share(bullet_speed, 55), EnemyBulletStyle::Ring));
            shots.push(muzzle(-90_000, share(bullet_speed, 85), EnemyBulletStyle::Needle));
            assert(shots@ =~= enemy_volley(enemy_type, bullet_speed, needle));
        },
        EnemyType::EliteGunship => {
            let mut i: u32 = 0;
            while i < 5
                invariant
                    i <= 5,
                    shots@ == Seq::new(i as nat, |k: int| gunship_shot(bullet_speed, k)),
                decreases 5 - i,
            {
                shots.push(muzzle(fan_direction(-90_000, 21_486, 5, i), share(bullet_speed, 60), EnemyBulletStyle::Shard));
                i = i + 1;
                assert(shots@ =~= Seq::new(i as nat, |k: int| gunship_shot(bullet_speed, k)));
            }
            shots.push(
                EnemyShot {
                    offset: Vec2D { x: -14_000, y: MUZZLE_DROP },
                    heading: -104_036,
                    speed: share(bullet_speed, 50),
                    damage: 1,
                    style: EnemyBulletStyle::Ring,
                },
            );
            shots.push(
                EnemyShot {
                    offset: Vec2D { x: 14_000, y: MUZZLE_DROP },
                    heading: -75_964,
                    speed: share(bullet_speed, 50),
                    damage: 1,
                    style: EnemyBulletStyle::Ring,
                },
            );
            assert(shots@ =~= enemy_volley(enemy_type, bullet_speed, needle));
        },
        EnemyType::EliteGuard => {
            let mut i: u32 = 0;
            while i < 10
                invariant
                    i <= 10,
                    shots@ == Seq::new(
                        i as nat,
                        |k: int| muzzle_shot(207_000 + 14_000 * k, share_of(bullet_speed, 42), EnemyBulletStyle::Ring),
                    ),
                decreases 10 - i,
            {
                shots.push(muzzle((207_000 + 14_000 * i) as i32, share(bullet_speed, 42), EnemyBulletStyle::Ring));
                i = i + 1;
                assert(shots@ =~= Seq::new(
                    i as nat,
                    |k: int| muzzle_shot(207_000 + 14_000 * k, share_of(bullet_speed, 42), EnemyBulletStyle::Ring),
                ));
            }
        },
        EnemyType::Hexagon => {
            shots.push(muzzle(-90_000, share(bullet_speed, 60), EnemyBulletStyle::Ring));
            assert(shots@ =~= enemy_volley(enemy_type, bullet_speed, needle));
        },
        EnemyType::Small => {
            shots.push(muzzle(-90_000, share(bullet_speed, 60), EnemyBulletStyle::Needle));
            assert(shots@ =~= enemy_volley(enemy_type, bullet_speed, needle));
        },
        EnemyType::Diamond => {
            let style = if needle {
                EnemyBulletStyle::Needle
            } else {
                EnemyBulletStyle::Shard
            };
            shots.push(muzzle(-90_000, share(bullet_speed, 60), style));
            assert(shots@ =~= enemy_volley(enemy_type, bullet_speed, needle));
        },
    }
    shots
}

/// Whether the enemy fires in this frame: its timer runs out.
pub open spec fn enemy_fires(enemy: Enemy, delta: int) -> bool {
    enemy.shoot_timer - delta <= 0
}

/// Lets an enemy's timer run for one frame. When it runs out the enemy fires
/// its volley and waits for its interval again. A diamond's shot is a needle
/// in 25 of 100 cases.
pub fn enemy_shooting(enemy: &mut Enemy, config: &GameConfig, delta: u32) -> (shots: Vec<EnemyShot>)
    requires
        old(enemy).shoot_timer - delta >= i64::MIN,
    ensures
        *final(enemy) == (Enemy {
            shoot_timer: if enemy_fires(*old(enemy), delta as int) {
                old(enemy).shoot_interval as i64
            } else {
                (old(enemy).shoot_timer - delta) as i64
            },
            ..*old(enemy)
        }),
        !enemy_fires(*old(enemy), delta as int) ==> shots@.len() == 0,
        enemy_fires(*old(enemy), delta as int) ==> exists|needle: bool|
            shots@ == #[trigger] enemy_volley(old(enemy).enemy_type, config.bullet_speed, needle),
{
    enemy.shoot_timer -= delta as i64;
    if enemy.shoot_timer <= 0 {
        enemy.shoot_timer = enemy.shoot_interval as i64;
        let needle = match enemy.enemy_type {
            EnemyType::Diamond => roll_ratio(25, 100),
            _ => false,
        };
        let shots = plan_enemy_volley(enemy.enemy_type, config.bullet_speed, needle);
        assert(shots@ == enemy_volley(enemy.enemy_type, config.bullet_speed, needle));
        shots
    } else {
        Vec::new()
    }
}

/// The sideways motion of a swaying enemy in a frame: its place sideways
/// grows by the cosine of `phase` times `reach`.
#[derive(Clone, Copy, PartialEq, Eq, Structural, Debug)]
pub struct Sway {
    /// Where the enemy is in its swaying, as an angle.
    pub phase: u64,
    /// The way that the enemy covers sideways at the most in this frame.
    pub reach: u32,
}

/// What a frame did to an enemy's place.
#[derive(Clone, Copy, PartialEq, Eq, Structural, Debug)]
pub struct EnemyStep {
    pub y: i32,
    pub sway: Option<Sway>,
}

/// The movement after a frame: a swaying enemy's clock has run on.
pub open spec fn movement_after(movement: EnemyMovement, delta: int) -> EnemyMovement {
    match movement {
        EnemyMovement::Sine { speed, amplitude, frequency, time } => EnemyMovement::Sine {
            speed,
            amplitude,
            frequency,
            time: (time + delta) as u64,
        },
        _ => movement,
    }
}

/// Where a frame takes an enemy: straight down at its speed; a swaying enemy
/// sideways as well; one that heads for a post, down until it has reached it.
pub open spec fn enemy_step(movement: EnemyMovement, y: int, delta: int) -> EnemyStep {
    match movement {
        EnemyMovement::Straight { speed } => EnemyStep { y: advanced_by(y, -speed, delta) as i32, sway: None },
        EnemyMovement::Sine { speed, amplitude, frequency, time } => EnemyStep {
            y: advanced_by(y, -speed, delta) as i32,
            sway: Some(
                Sway {
                    phase: ((time + delta) * frequency / 1_000_000) as u64,
                    reach: (amplitude * delta / 1_000_000) as u32,
                },
            ),
        },
        EnemyMovement::Homing { speed, turn_speed } => EnemyStep {
            y: advanced_by(y, -speed, delta) as i32,
            sway: None,
        },
        EnemyMovement::Stationary { target_y } => EnemyStep {
            y: if y > target_y {
                advanced_by(y, -DESCENT_SPEED, delta) as i32
            } else {
                y as i32
            },
            sway: None,
        },
    }
}

/// Moves an enemy for one frame.
pub fn enemy_movement(movement: &mut EnemyMovement, y: i32, delta: u32) -> (step: EnemyStep)
    requires
        (*old(movement) matches EnemyMovement::Sine { time, .. } ==> time + delta <= u64::MAX),
    ensures
        *final(movement) == movement_after(*old(movement), delta as int),
        step == enemy_step(*old(movement), y as int, delta as int),
{
    match *movement {
        EnemyMovement::Straight { speed } => EnemyStep {
            y: advance_coordinate(y, -(speed as i64), delta),
            sway: None,
        },
        EnemyMovement::Sine { speed, amplitude, frequency, time } => {
            let now = time + delta as u64;
            *movement = EnemyMovement::Sine { speed, amplitude, frequency, time: now };
            assert(amplitude * delta <= 0xffff_ffff * 0xffff_ffff) by (nonlinear_arith)
                requires
                    0 <= amplitude <= 0xffff_ffff,
                    0 <= delta <= 0xffff_ffff,
            ;
            assert(now * frequency <= 0xffff_ffff_ffff_ffff * 0xffff_ffff) by (nonlinear_arith)
                requires
                    0 <= now <= 0xffff_ffff_ffff_ffff,
                    0 <= frequency <= 0xffff_ffff,
            ;
            EnemyStep {
                y: advance_coordinate(y, -(speed as i64), delta),
                sway: Some(
                    Sway {
                        phase: (now as u128 * frequency as u128 / 1_000_000) as u64,
                        reach: (amplitude as u64 * delta as u64 / 1_000_000) as u32,
                    },
                ),
            }
        },
        EnemyMovement::Homing { speed, turn_speed } => EnemyStep {
            y: advance_coordinate(y, -(speed as i64), delta),
            sway: None,
        },
        EnemyMovement::Stationary { target_y } => EnemyStep {
            y: if y > target_y {
                advance_coordinate(y, -DESCENT_SPEED, delta)
            } else {
                y
            },
            sway: None,
        },
    }
}

/// The enemy bullets that the first `count` events see swallowed: each event
/// that joins an orb of the aura with an enemy bullet removes the bullet.
pub open spec fn swallowed(projectiles: Seq<ProjectileView>, events: Seq<CollisionEvent>, count: int) -> Seq<u64>
    decreases count,
{
    if count <= 0 {
        Seq::empty()
    } else {
        let before = swallowed(projectiles, events, count - 1);
        match swallowed_by(projectiles, events[count - 1]) {
            Some(bullet) => before.push(bullet),
            None => before,
        }
    }
}

/// The enemy bullet that the event sees swallowed, if any.
pub open spec fn swallowed_by(projectiles: Seq<ProjectileView>, event: CollisionEvent) -> Option<u64> {
    let pair = if event.layer_a == CollisionLayer::PlayerBullet && event.layer_b == CollisionLayer::EnemyBullet {
        Some((event.entity_a, event.entity_b))
    } else if event.layer_a == CollisionLayer::EnemyBullet && event.layer_b == CollisionLayer::PlayerBullet {
        Some((event.entity_b, event.entity_a))
    } else {
        None
    };
    match pair {
        Some((mine, theirs)) => match find_projectile(projectiles, mine, 0) {
            Some(j) => match projectiles[j].weapon_bullet {
                Some(weapon_bullet) => if weapon_bullet.weapon_type == WeaponType::Aura {
                    Some(theirs)
                } else {
                    None
                },
                None => None,
            },
            None => None,
        },
        None => None,
    }
}

/// Finds the enemy bullets that the aura's orbs swallow in this frame, in the
/// order of the events.
pub fn handle_player_bullet_vs_enemy_bullet(events: &Vec<CollisionEvent>, projectiles: &Vec<Projectile>) -> (removed:
    Vec<u64>)
    ensures
        removed@ == swallowed(views(projectiles@), events@, events@.len() as int),
{
    let mut removed: Vec<u64> = Vec::new();
    let mut k: usize = 0;
    while k < events.len()
        invariant
            k <= events@.len(),
            removed@ == swallowed(views(projectiles@), events@, k as int),
        decreases events@.len() - k,
    {
        let event = events[k];
        k = k + 1;
        let (mine, theirs) = if event.layer_a == CollisionLayer::PlayerBullet && event.layer_b
            == CollisionLayer::EnemyBullet {
            (event.entity_a, event.entity_b)
        } else if event.layer_a == CollisionLayer::EnemyBullet && event.layer_b == CollisionLayer::PlayerBullet {
            (event.entity_b, event.entity_a)
        } else {
            continue ;
        };
        match projectile_index(projectiles, mine) {
            Some(j) => {
                assert(views(projectiles@)[j as int] == projectiles@[j as int]@);
                match projectiles[j].weapon_bullet {
                    Some(weapon_bullet) => {
                        if weapon_bullet.weapon_type == WeaponType::Aura {
                            removed.push(theirs);
                        }
                    },
                    None => {},
                }
            },
            None => {},
        }
    }
    removed
}

} // verus!
