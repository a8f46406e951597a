//! The volleys of bosses and enemies: which shots leave in which directions.

use vstd::prelude::*;
use crate::aim::{fan_angle, fan_direction, ring_angle, ring_direction, row_offset, row_position};
use crate::boss::{Boss, BossType};
use crate::collision::{hitbox_on, CollisionLayer, Hitbox};
use crate::geometry::Vec2D;
use crate::random::roll_range;

verus! {

/// A shot of a boss.
#[derive(Clone, Copy, PartialEq, Eq, Structural, Debug)]
pub struct BossShot {
    /// Where it appears, relative to the boss.
    pub offset: Vec2D,
    /// The direction in which it flies.
    pub heading: i32,
    pub speed: u32,
    pub damage: i32,
}

/// The direction straight down.
pub const STRAIGHT_DOWN: i32 = -90_000;

/// Radius of the collision circle of a boss's shot.
pub const BOSS_SHOT_RADIUS: u32 = 8_000;

/// Time after which a boss's shot vanishes, in microseconds.
pub const BOSS_SHOT_LIFETIME: i64 = 5_000_000;

impl BossShot {
    /// The collider of a boss's shot, as a value: a circle of 8 pixels on the
    /// layer of the enemy bullets, reacting to the ship.
    pub open spec fn shot_hitbox() -> Hitbox {
        hitbox_on(CollisionLayer::EnemyBullet, BOSS_SHOT_RADIUS as int)
    }

    /// The collider of the shot.
    pub fn hitbox(&self) -> (hitbox: Hitbox)
        ensures
            hitbox == BossShot::shot_hitbox(),
    {
        Hitbox::on(CollisionLayer::EnemyBullet, BOSS_SHOT_RADIUS)
    }
}

/// A shot of one damage from the boss's centre.
pub open spec fn shot(heading: int, speed: u32) -> BossShot {
    BossShot { offset: Vec2D { x: 0, y: 0 }, heading: heading as i32, speed, damage: 1 }
}

/// `count` shots whose directions start at `start` and advance by `step`.
pub open spec fn evenly(count: int, start: int, step: int, speed: u32) -> Seq<BossShot> {
    Seq::new(count as nat, |i: int| shot(start + step * i, speed))
}

/// A fan of `count` shots that opens by `half_spread` to either side of `center`.
pub open spec fn fan(count: int, center: int, half_spread: int, speed: u32) -> Seq<BossShot> {
    Seq::new(count as nat, |i: int| shot(fan_angle(center, half_spread, count, i), speed))
}

/// A ring of `count` shots.
pub open spec fn ring(count: int, speed: u32) -> Seq<BossShot> {
    Seq::new(count as nat, |i: int| shot(ring_angle(0, count, i), speed))
}

/// A row of `count` shots that fly straight down, side by side.
pub open spec fn row(count: int, half_step: int, drop: int, speed: u32, damage: i32) -> Seq<BossShot> {
    Seq::new(
        count as nat,
        |i: int|
            BossShot {
                offset: Vec2D { x: row_offset(half_step, count, i) as i32, y: drop as i32 },
                heading: STRAIGHT_DOWN,
                speed,
                damage,
            },
    )
}

/// The direction of arm `arm` of the cross: down, up, left, right.
pub open spec fn cross_heading(arm: int) -> int {
    if arm == 0 {
        -90_000
    } else if arm == 1 {
        90_000
    } else if arm == 2 {
        180_000
    } else {
        0
    }
}

/// Shot `k` of the cross: three shots along each arm, 20 pixels apart.
pub open spec fn cross_shot(k: int) -> BossShot {
    let arm = k / 3;
    let step = (k % 3) * 20_000;
    BossShot {
        offset: if arm == 0 {
            Vec2D { x: 0, y: (-step) as i32 }
        } else if arm == 1 {
            Vec2D { x: 0, y: step as i32 }
        } else if arm == 2 {
            Vec2D { x: (-step) as i32, y: 0 }
        } else {
            Vec2D { x: step as i32, y: 0 }
        },
        heading: cross_heading(arm) as i32,
        speed: 250_000,
        damage: 1,
    }
}

/// `count` shots in the drawn directions, each turned by `center`, at the drawn speeds.
pub open spec fn scattered(count: int, center: int, angles: Seq<i32>, speeds: Seq<u32>) -> Seq<BossShot> {
    Seq::new(count as nat, |i: int| shot(center + angles[i], speeds[i]))
}

/// The volley of a boss.
///
/// * Diamond king: a fan of 5 shots and 2 more for each phase, 60 degrees to either side of straight down.
/// * Hex fortress: six shots, 60 degrees apart, turned by 30 degrees for each volley fired.
/// * Triangle fighter: three shots of two damage straight down, 30 pixels apart.
/// * Star mothership: five shots, 72 degrees apart, the first straight down.
/// * Circle guardian: a ring of 8 shots and 4 more for each phase.
/// * Cross laser: three shots along each axis in both directions.
/// * Spiral shooter: four shots at right angles, turned by 22.5 degrees for each volley fired.
/// * Split core: four shots along the axes.
/// * Tracker prime: 3 shots and 1 more for each phase, scattered around straight down.
/// * Chaos eye: as drawn, a ring of 12, a row of 5, a diagonal cross of 4, or 8 scattered shots.
pub open spec fn volley(boss: Boss, chaos: u32, angles: Seq<i32>, speeds: Seq<u32>) -> Seq<BossShot> {
    match boss.boss_type {
        BossType::DiamondKing => fan(5 + 2 * boss.phase, -90_000, 60_000, 200_000),
        BossType::HexFortress => evenly(6, (boss.attack_pattern % 12) * 30_000, 60_000, 180_000),
        BossType::TriangleFighter => row(3, 15_000, -40_000, 300_000, 2),
        BossType::StarMothership => evenly(5, -90_000, 72_000, 150_000),
        BossType::CircleGuardian => ring(8 + 4 * boss.phase, 120_000),
        BossType::CrossLaser => Seq::new(12, |k: int| cross_shot(k)),
        BossType::SpiralShooter => evenly(4, (boss.attack_pattern % 16) * 22_500, 90_000, 160_000),
        BossType::SplitCore => evenly(4, 0, 90_000, 140_000),
        BossType::TrackerPrime => scattered(3 + boss.phase, -90_000, angles, speeds),
        BossType::ChaosEye => if chaos == 0 {
            evenly(12, 0, 30_000, 130_000)
        } else if chaos == 1 {
            row(5, 20_000, 0, 200_000, 1)
        } else if chaos == 2 {
            evenly(4, 45_000, 90_000, 180_000)
        } else {
            scattered(8, 0, angles, speeds)
        },
    }
}

/// The boss after a volley: the bosses that turn have turned once more.
pub open spec fn after_volley(boss: Boss) -> Boss {
    match boss.boss_type {
        BossType::HexFortress => Boss { attack_pattern: ((boss.attack_pattern + 1) % 12) as u32, ..boss },
        BossType::SpiralShooter => Boss { attack_pattern: ((boss.attack_pattern + 1) % 16) as u32, ..boss },
        _ => boss,
    }
}

/// Number of drawn directions and speeds that the volley of `boss` uses.
pub open spec fn draws_needed(boss: Boss, chaos: u32) -> int {
    match boss.boss_type {
        BossType::TrackerPrime => 3 + boss.phase,
        BossType::ChaosEye => if chaos >= 3 {
            8
        } else {
            0
        },
        _ => 0,
    }
}

/// Whether the draws lie in their ranges: tracker prime scatters within 45
/// degrees to either side at 150 to 250 pixels per second, the chaos eye in
/// all directions at 100 to 200.
pub open spec fn draws_valid(boss: Boss, chaos: u32, angles: Seq<i32>, speeds: Seq<u32>) -> bool {
    &&& chaos < 4
    &&& angles.len() == draws_needed(boss, chaos)
    &&& speeds.len() == draws_needed(boss, chaos)
    &&& forall|i: int|
        0 <= i < angles.len() ==> if boss.boss_type == BossType::TrackerPrime {
            -45_000 <= #[trigger] angles[i] < 45_000
        } else {
            0 <= angles[i] < 360_000
        }
    &&& forall|i: int|
        0 <= i < speeds.len() ==> if boss.boss_type == BossType::TrackerPrime {
            150_000 <= #[trigger] speeds[i] < 250_000
        } else {
            100_000 <= speeds[i] < 200_000
        }
}

fn make_shot(heading: i32, speed: u32) -> (s: BossShot)
    ensures
        s == shot(heading as int, speed),
{
    BossShot { offset: Vec2D { x: 0, y: 0 }, heading, speed, damage: 1 }
}

fn fire_evenly(count: u32, start: i32, step: i32, speed: u32) -> (shots: Vec<BossShot>)
    requires
        count <= 12,
        0 <= step <= 90_000,
        -90_000 <= start <= 360_000,
    ensures
        shots@ == evenly(count as int, start as int, step as int, speed),
{
    let mut shots: Vec<BossShot> = Vec::new();
    let mut i: u32 = 0;
    while i < count
        invariant
            i <= count <= 12,
            0 <= step <= 90_000,
            -90_000 <= start <= 360_000,
            shots@ == evenly(i as int, start as int, step as int, speed),
        decreases count - i,
    {
        assert(0 <= step * i <= 90_000 * 12) by (nonlinear_arith)
            requires
                0 <= step <= 90_000,
                0 <= i <= 12,
        ;
        shots.push(make_shot(start + step * (i as i32), speed));
        i = i + 1;
        assert(shots@ =~= evenly(i as int, start as int, step as int, speed));
    }
    shots
}

fn fire_fan(count: u32, center: i32, half_spread: u32, speed: u32) -> (shots: Vec<BossShot>)
    requires
        2 <= count <= 1000,
        -360_000 <= center <= 360_000,
        half_spread <= 360_000,
    ensures
        shots@ == fan(count as int, center as int, half_spread as int, speed),
{
    let mut shots: Vec<BossShot> = Vec::new();
    let mut i: u32 = 0;
    while i < count
        invariant
            i <= count,
            2 <= count <= 1000,
            -360_000 <= center <= 360_000,
            half_spread <= 360_000,
            shots@ == Seq::new(
                i as nat,
                |k: int| shot(fan_angle(center as int, half_spread as int, count as int, k), speed),
            ),
        decreases count - i,
    {
        shots.push(make_shot(fan_direction(center, half_spread, count, i), speed));
        i = i + 1;
        assert(shots@ =~= Seq::new(
            i as nat,
            |k: int| shot(fan_angle(center as int, half_spread as int, count as int, k), speed),
        ));
    }
    shots
}

fn fire_ring(count: u32, speed: u32) -> (shots: Vec<BossShot>)
    requires
        0 < count,
    ensures
        shots@ == ring(count as int, speed),
{
    let mut shots: Vec<BossShot> = Vec::new();
    let mut i: u32 = 0;
    while i < count
        invariant
            i <= count,
            0 < count,
            shots@ == Seq::new(i as nat, |k: int| shot(ring_angle(0, count as int, k), speed)),
        decreases count - i,
    {
        shots.push(make_shot(ring_direction(0, count, i), speed));
        i = i + 1;
        assert(shots@ =~= Seq::new(i as nat, |k: int| shot(ring_angle(0, count as int, k), speed)));
    }
    shots
}

fn fire_row(count: u32, half_step: u32, drop: i32, speed: u32, damage: i32) -> (shots: Vec<BossShot>)
    requires
        1 <= count <= 1000,
        half_step <= 1_000_000,
    ensures
        shots@ == row(count as int, half_step as int, drop as int, speed, damage),
{
    let mut shots: Vec<BossShot> = Vec::new();
    let mut i: u32 = 0;
    while i < count
        invariant
            i <= count,
            1 <= count <= 1000,
            half_step <= 1_000_000,
            shots@ == Seq::new(
                i as nat,
                |k: int|
                    BossShot {
                        offset: Vec2D { x: row_offset(half_step as int, count as int, k) as i32, y: drop },
                        heading: STRAIGHT_DOWN,
                        speed,
                        damage,
                    },
            ),
        decreases count - i,
    {
        shots.push(
            BossShot {
                offset: Vec2D { x: row_position(half_step, count, i), y: drop },
                heading: STRAIGHT_DOWN,
                speed,
                damage,
            },
        );
        i = i + 1;
        assert(shots@ =~= Seq::new(
            i as nat,
            |k: int|
                BossShot {
                    offset: Vec2D { x: row_offset(half_step as int, count as int, k) as i32, y: drop },
                    heading: STRAIGHT_DOWN,
                    speed,
                    damage,
                },
        ));
    }
    shots
}

fn fire_cross() -> (shots: Vec<BossShot>)
    ensures
        shots@ == Seq::new(12, |k: int| cross_shot(k)),
{
    let mut shots: Vec<BossShot> = Vec::new();
    let mut k: u32 = 0;
    while k < 12
        invariant
            k <= 12,
            shots@ == Seq::new(k as nat, |m: int| cross_shot(m)),
        decreases 12 - k,
    {
        let arm = k / 3;
        let step = ((k % 3) * 20_000) as i32;
        let (offset, heading): (Vec2D, i32) = if arm == 0 {
            (Vec2D { x: 0, y: -step }, -90_000)
        } else if arm == 1 {
            (Vec2D { x: 0, y: step }, 90_000)
        } else if arm == 2 {
            (Vec2D { x: -step, y: 0 }, 180_000)
        } else {
            (Vec2D { x: step, y: 0 }, 0)
        };
        shots.push(BossShot { offset, heading, speed: 250_000, damage: 1 });
        k = k + 1;
        assert(shots@ =~= Seq::new(k as nat, |m: int| cross_shot(m)));
    }
    shots
}

fn fire_scattered(count: u32, center: i32, angles: &Vec<i32>, speeds: &Vec<u32>) -> (shots: Vec<BossShot>)
    requires
        count <= angles@.len(),
        count <= speeds@.len(),
        -90_000 <= center <= 0,
        forall|i: int| 0 <= i < angles@.len() ==> -45_000 <= #[trigger] angles@[i] < 360_000,
    ensures
        shots@ == scattered(count as int, center as int, angles@, speeds@),
{
    let mut shots: Vec<BossShot> = Vec::new();
    let mut i: u32 = 0;
    while i < count
        invariant
            i <= count,
            count <= angles@.len(),
            count <= speeds@.len(),
            -90_000 <= center <= 0,
            forall|k: int| 0 <= k < angles@.len() ==> -45_000 <= #[trigger] angles@[k] < 360_000,
            shots@ == scattered(i as int, center as int, angles@, speeds@),
        decreases count - i,
    {
        shots.push(make_shot(center + angles[i as usize], speeds[i as usize]));
        i = i + 1;
        assert(shots@ =~= scattered(i as int, center as int, angles@, speeds@));
    }
    shots
}

/// Fires the volley of `boss` with the given draws.
pub fn plan_boss_attack(boss: &mut Boss, chaos: u32, angles: &Vec<i32>, speeds: &Vec<u32>) -> (shots: Vec<BossShot>)
    requires
        old(boss).wf(),
        draws_valid(*old(boss), chaos, angles@, speeds@),
    ensures
        shots@ == volley(*old(boss), chaos, angles@, speeds@),
        *final(boss) == after_volley(*old(boss)),
{
    match boss.boss_type {
        BossType::DiamondKing => fire_fan(5 + 2 * boss.phase, -90_000, 60_000, 200_000),
        BossType::HexFortress => {
            let turned = ((boss.attack_pattern % 12) * 30_000) as i32;
            boss.attack_pattern = ((boss.attack_pattern as u64 + 1) % 12) as u32;
            fire_evenly(6, turned, 60_000, 180_000)
        },
        BossType::TriangleFighter => fire_row(3, 15_000, -40_000, 300_000, 2),
        BossType::StarMothership => fire_evenly(5, -90_000, 72_000, 150_000),
        BossType::CircleGuardian => fire_ring(8 + 4 * boss.phase, 120_000),
        BossType::CrossLaser => fire_cross(),
        BossType::SpiralShooter => {
            let turned = ((boss.attack_pattern % 16) * 22_500) as i32;
            boss.attack_pattern = ((boss.attack_pattern as u64 + 1) % 16) as u32;
            fire_evenly(4, turned, 90_000, 160_000)
        },
        BossType::SplitCore => fire_evenly(4, 0, 90_000, 140_000),
        BossType::TrackerPrime => fire_scattered(3 + boss.phase, -90_000, angles, speeds),
        BossType::ChaosEye => {
            if chaos == 0 {
                fire_evenly(12, 0, 30_000, 130_000)
            } else if chaos == 1 {
                fire_row(5, 20_000, 0, 200_000, 1)
            } else if chaos == 2 {
                fire_evenly(4, 45_000, 90_000, 180_000)
            } else {
                fire_scattered(8, 0, angles, speeds)
            }
        },
    }
}

fn roll_scatter(count: u32, low_angle: i32, high_angle: i32, low_speed: u32, high_speed: u32) -> (draws: (
    Vec<i32>,
    Vec<u32>,
))
    requires
        low_angle < high_angle,
        low_speed < high_speed,
    ensures
        draws.0@.len() == count,
        draws.1@.len() == count,
        forall|i: int| 0 <= i < count ==> low_angle <= #[trigger] draws.0@[i] < high_angle,
        forall|i: int| 0 <= i < count ==> low_speed <= #[trigger] draws.1@[i] < high_speed,
{
    let mut angles: Vec<i32> = Vec::new();
    let mut speeds: Vec<u32> = Vec::new();
    let mut i: u32 = 0;
    while i < count
        invariant
            i <= count,
            low_angle < high_angle,
            low_speed < high_speed,
            angles@.len() == i,
            speeds@.len() == i,
            forall|k: int| 0 <= k < i ==> low_angle <= #[trigger] angles@[k] < high_angle,
            forall|k: int| 0 <= k < i ==> low_speed <= #[trigger] speeds@[k] < high_speed,
        decreases count - i,
    {
        angles.push(roll_range(low_angle as i64, high_angle as i64) as i32);
        speeds.push(roll_range(low_speed as i64, high_speed as i64) as u32);
        i = i + 1;
    }
    (angles, speeds)
}

/// Fires the volley of `boss`, drawing what its kind leaves to chance.
pub fn execute_boss_attack(boss: &mut Boss) -> (shots: Vec<BossShot>)
    requires
        old(boss).wf(),
    ensures
        *final(boss) == after_volley(*old(boss)),
        exists|chaos: u32, angles: Seq<i32>, speeds: Seq<u32>|
            #![trigger draws_valid(*old(boss), chaos, angles, speeds)]
            draws_valid(*old(boss), chaos, angles, speeds) && shots@ == volley(*old(boss), chaos, angles, speeds),
{
    let chaos: u32 = match boss.boss_type {
        BossType::ChaosEye => roll_range(0, 4) as u32,
        _ => 0,
    };
    let (angles, speeds) = match boss.boss_type {
        BossType::TrackerPrime => roll_scatter(3 + boss.phase, -45_000, 45_000, 150_000, 250_000),
        BossType::ChaosEye => if chaos >= 3 {
            roll_scatter(8, 0, 360_000, 100_000, 200_000)
        } else {
            roll_scatter(0, 0, 360_000, 100_000, 200_000)
        },
        _ => roll_scatter(0, 0, 360_000, 100_000, 200_000),
    };
    assert(draws_valid(*boss, chaos, angles@, speeds@));
    plan_boss_attack(boss, chaos, &angles, &speeds)
}

/// Every volley holds at least three shots, and every shot does damage.
pub proof fn lemma_volley_size(boss: Boss, chaos: u32, angles: Seq<i32>, speeds: Seq<u32>)
    requires
        boss.wf(),
    ensures
        3 <= volley(boss, chaos, angles, speeds).len() <= 20,
        forall|i: int|
            0 <= i < volley(boss, chaos, angles, speeds).len() ==> (#[trigger] volley(
                boss,
                chaos,
                angles,
                speeds,
            )[i]).damage >= 1,
{
}

/// The fan of the diamond king and the ring of the circle guardian grow from phase to phase.
pub proof fn lemma_volleys_grow(phase: u32)
    requires
        1 <= phase < 3,
    ensures
        fan(5 + 2 * (phase + 1), -90_000, 60_000, 200_000).len() > fan(5 + 2 * phase, -90_000, 60_000, 200_000).len(),
        ring(8 + 4 * (phase + 1), 120_000).len() > ring(8 + 4 * phase, 120_000).len(),
{
}

} // verus!
