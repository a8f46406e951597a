//! What each weapon fires: the projectiles of a shot, as functions of the
//! weapon's level.

use vstd::prelude::*;
use crate::aim::{fan_angle, fan_direction, ring_angle, ring_direction, row_offset, row_position, QUARTER_TURN};
use crate::collision::{hitbox_on, standard_mask, Collider, CollisionLayer, CollisionMask, Hitbox};
use crate::geometry::CollisionShape;
use crate::geometry::Vec2D;
use crate::projectiles::{
    AuraOrb, BeamWave, Bullet, HomingMissile, LaserBeam, LightningCast, Pierce, RocketBullet, ShotgunPellet,
    INFINITE_PIERCE,
};
use crate::states::{min_int, GameConfig};
use crate::weapons::{WeaponType, MAX_WEAPON_LEVEL};

verus! {

/// The outline of a projectile in collisions.
#[derive(Clone, Copy, PartialEq, Eq, Structural, Debug)]
pub enum ShotShape {
    Circle { radius: u32 },
    Rectangle { width: u32, height: u32 },
}

/// What a projectile carries besides its damage, by weapon.
#[derive(Clone, Copy, PartialEq, Eq, Structural, Debug)]
pub enum Payload {
    Plain,
    Pellet(ShotgunPellet),
    Rocket(RocketBullet),
    Laser(LaserBeam),
    Homing(HomingMissile),
    Orb(AuraOrb),
    Wave(BeamWave),
}

/// A projectile to bring into the world.
#[derive(Clone, Copy, PartialEq, Eq, Structural, Debug)]
pub struct ProjectileSpawn {
    /// Where it appears, relative to the ship.
    pub offset: Vec2D,
    /// The direction in which it flies.
    pub heading: i32,
    pub speed: u32,
    pub shape: ShotShape,
    pub weapon_type: WeaponType,
    pub damage: i32,
    /// Time after which it vanishes, in microseconds.
    pub lifetime: i64,
    pub pierce: Option<Pierce>,
    /// Whether it keeps a list of the targets it has struck.
    pub hit_list: bool,
    pub payload: Payload,
    /// The layer it is on: that of the player's bullets.
    pub layer: CollisionLayer,
    pub mask: CollisionMask,
}

impl ShotShape {
    /// The outline as a collision shape.
    pub open spec fn as_shape(self) -> CollisionShape {
        match self {
            ShotShape::Circle { radius } => CollisionShape::Circle { radius },
            ShotShape::Rectangle { width, height } => CollisionShape::Rectangle { width, height },
        }
    }
}

impl ProjectileSpawn {
    /// The collider of the projectile.
    pub open spec fn as_collider(self) -> Collider {
        Collider { shape: self.shape.as_shape(), layer: self.layer, mask: self.mask }
    }

    /// The collider of the projectile.
    pub fn collider(&self) -> (collider: Collider)
        ensures
            collider == self.as_collider(),
    {
        let shape = match self.shape {
            ShotShape::Circle { radius } => CollisionShape::Circle { radius },
            ShotShape::Rectangle { width, height } => CollisionShape::Rectangle { width, height },
        };
        Collider { shape, layer: self.layer, mask: self.mask }
    }
}

/// The mask of a player bullet, as a value.
pub open spec fn bullet_mask() -> CollisionMask {
    standard_mask(CollisionLayer::PlayerBullet)
}

/// The mask of an aura orb, as a value.
pub open spec fn orb_mask() -> CollisionMask {
    CollisionMask { player: false, player_bullet: false, enemy: true, enemy_bullet: true, power_up: false }
}

fn player_bullet_mask() -> (mask: CollisionMask)
    ensures
        mask == bullet_mask(),
{
    CollisionMask { player: false, player_bullet: false, enemy: true, enemy_bullet: false, power_up: false }
}

/// Number of pellets of a shotgun of `level`: two, and two more for each level above the first.
pub open spec fn pellet_count(level: int) -> int {
    2 + (level - 1) * 2
}

/// Pellet `i` of a shotgun of `level`: the pellets fan out evenly within ten
/// degrees to either side of straight up.
pub open spec fn shotgun_pellet(level: int, speed: u32, i: int) -> ProjectileSpawn {
    let angle = fan_angle(QUARTER_TURN as int, 10_000, pellet_count(level), i) as i32;
    ProjectileSpawn {
        offset: Vec2D { x: 0, y: 0 },
        heading: angle,
        speed,
        shape: ShotShape::Circle { radius: 6_000 },
        weapon_type: WeaponType::Shotgun,
        damage: 1,
        lifetime: 1_600_000,
        pierce: None,
        hit_list: false,
        payload: Payload::Pellet(ShotgunPellet { spread_angle: angle }),
        layer: CollisionLayer::PlayerBullet,
        mask: bullet_mask(),
    }
}

/// The pellets of one shot of a shotgun.
pub fn spawn_shotgun_pellets(level: u32, speed: u32) -> (shots: Vec<ProjectileSpawn>)
    requires
        1 <= level <= MAX_WEAPON_LEVEL,
    ensures
        shots@ == Seq::new(pellet_count(level as int) as nat, |i: int| shotgun_pellet(level as int, speed, i)),
{
    let count = 2 + (level - 1) * 2;
    let mut shots: Vec<ProjectileSpawn> = Vec::new();
    let mut i: u32 = 0;
    while i < count
        invariant
            1 <= level <= MAX_WEAPON_LEVEL,
            count == pellet_count(level as int),
            i <= count,
            shots@ == Seq::new(i as nat, |k: int| shotgun_pellet(level as int, speed, k)),
        decreases count - i,
    {
        let angle = fan_direction(QUARTER_TURN, 10_000, count, i);
        shots.push(
            ProjectileSpawn {
                offset: Vec2D { x: 0, y: 0 },
                heading: angle,
                speed,
                shape: ShotShape::Circle { radius: 6_000 },
                weapon_type: WeaponType::Shotgun,
                damage: 1,
                lifetime: 1_600_000,
                pierce: None,
                hit_list: false,
                payload: Payload::Pellet(ShotgunPellet { spread_angle: angle }),
                layer: CollisionLayer::PlayerBullet,
                mask: player_bullet_mask(),
            },
        );
        i = i + 1;
        assert(shots@ =~= Seq::new(i as nat, |k: int| shotgun_pellet(level as int, speed, k)));
    }
    shots
}

/// Speed of the rockets of a launcher of `level`: a tenth more for each level above the first.
pub open spec fn rocket_speed(level: int, speed: int) -> int {
    min_int(speed * (9 + level) / 10, u32::MAX as int)
}

/// Rocket `i` of a launcher of `level`: the rockets start side by side, 15
/// pixels apart, and fly straight up until they are pointed at their target.
pub open spec fn rocket(level: int, target: Option<u64>, speed: u32, i: int) -> ProjectileSpawn {
    let flight = rocket_speed(level, speed as int) as u32;
    ProjectileSpawn {
        offset: Vec2D { x: row_offset(7_500, level, i) as i32, y: 0 },
        heading: QUARTER_TURN,
        speed: flight,
        shape: ShotShape::Circle { radius: 14_000 },
        weapon_type: WeaponType::Rocket,
        damage: (2 + level) as i32,
        lifetime: 5_000_000,
        pierce: None,
        hit_list: false,
        payload: Payload::Rocket(
            RocketBullet {
                target,
                initialized: false,
                speed: flight,
                explosion_radius: (30_000 + 5_000 * level) as u32,
            },
        ),
        layer: CollisionLayer::PlayerBullet,
        mask: bullet_mask(),
    }
}

/// The rockets of one shot: as many as the level.
pub fn spawn_rocket(level: u32, target: Option<u64>, speed: u32) -> (shots: Vec<ProjectileSpawn>)
    requires
        1 <= level <= MAX_WEAPON_LEVEL,
    ensures
        shots@ == Seq::new(level as nat, |i: int| rocket(level as int, target, speed, i)),
{
    let tenths = 9 + level as u64;
    assert(speed * tenths <= 0xffff_ffff * 14) by (nonlinear_arith)
        requires
            0 <= speed <= 0xffff_ffff,
            0 <= tenths <= 14,
    ;
    let scaled = speed as u64 * tenths / 10;
    let flight: u32 = if scaled > u32::MAX as u64 {
        u32::MAX
    } else {
        scaled as u32
    };
    let mut shots: Vec<ProjectileSpawn> = Vec::new();
    let mut i: u32 = 0;
    while i < level
        invariant
            1 <= level <= MAX_WEAPON_LEVEL,
            flight == rocket_speed(level as int, speed as int),
            i <= level,
            shots@ == Seq::new(i as nat, |k: int| rocket(level as int, target, speed, k)),
        decreases level - i,
    {
        shots.push(
            ProjectileSpawn {
                offset: Vec2D { x: row_position(7_500, level, i), y: 0 },
                heading: QUARTER_TURN,
                speed: flight,
                shape: ShotShape::Circle { radius: 14_000 },
                weapon_type: WeaponType::Rocket,
                damage: (2 + level) as i32,
                lifetime: 5_000_000,
                pierce: None,
                hit_list: false,
                payload: Payload::Rocket(
                    RocketBullet {
                        target,
                        initialized: false,
                        speed: flight,
                        explosion_radius: 30_000 + 5_000 * level,
                    },
                ),
                layer: CollisionLayer::PlayerBullet,
                mask: player_bullet_mask(),
            },
        );
        i = i + 1;
        assert(shots@ =~= Seq::new(i as nat, |k: int| rocket(level as int, target, speed, k)));
    }
    shots
}

/// Number of beams of a laser of `level`: one, and one more for every second level.
pub open spec fn laser_count(level: int) -> int {
    1 + (level - 1) / 2
}

/// Length of a laser beam.
pub const LASER_LENGTH: u32 = 150_000;

/// Beam `i` of a laser of `level`: the beams start side by side, 25 pixels
/// apart and ahead of the ship, fly straight up and pass through every enemy,
/// striking each once.
pub open spec fn laser(level: int, i: int) -> ProjectileSpawn {
    let width = (4_000 + 700 * level) as u32;
    ProjectileSpawn {
        offset: Vec2D { x: row_offset(12_500, laser_count(level), i) as i32, y: 115_000 },
        heading: QUARTER_TURN,
        speed: 600_000,
        shape: ShotShape::Rectangle { width, height: LASER_LENGTH },
        weapon_type: WeaponType::Laser,
        damage: (2 + level) as i32,
        lifetime: 2_000_000,
        pierce: Some(Pierce { remaining: INFINITE_PIERCE }),
        hit_list: true,
        payload: Payload::Laser(LaserBeam { width, length: LASER_LENGTH }),
        layer: CollisionLayer::PlayerBullet,
        mask: bullet_mask(),
    }
}

/// The beams of one shot of a laser.
pub fn spawn_laser(level: u32) -> (shots: Vec<ProjectileSpawn>)
    requires
        1 <= level <= MAX_WEAPON_LEVEL,
    ensures
        shots@ == Seq::new(laser_count(level as int) as nat, |i: int| laser(level as int, i)),
{
    let count = 1 + (level - 1) / 2;
    let width = 4_000 + 700 * level;
    let mut shots: Vec<ProjectileSpawn> = Vec::new();
    let mut i: u32 = 0;
    while i < count
        invariant
            1 <= level <= MAX_WEAPON_LEVEL,
            count == laser_count(level as int),
            width == 4_000 + 700 * level,
            i <= count,
            shots@ == Seq::new(i as nat, |k: int| laser(level as int, k)),
        decreases count - i,
    {
        shots.push(
            ProjectileSpawn {
                offset: Vec2D { x: row_position(12_500, count, i), y: 115_000 },
                heading: QUARTER_TURN,
                speed: 600_000,
                shape: ShotShape::Rectangle { width, height: LASER_LENGTH },
                weapon_type: WeaponType::Laser,
                damage: (2 + level) as i32,
                lifetime: 2_000_000,
                pierce: Some(Pierce { remaining: INFINITE_PIERCE }),
                hit_list: true,
                payload: Payload::Laser(LaserBeam { width, length: LASER_LENGTH }),
                layer: CollisionLayer::PlayerBullet,
                mask: player_bullet_mask(),
            },
        );
        i = i + 1;
        assert(shots@ =~= Seq::new(i as nat, |k: int| laser(level as int, k)));
    }
    shots
}

/// Missile `i` of a homing launcher of `level`: the missiles start side by
/// side, 12 pixels apart, and turn faster with every level.
pub open spec fn homing_missile(level: int, target: Option<u64>, speed: u32, i: int) -> ProjectileSpawn {
    ProjectileSpawn {
        offset: Vec2D { x: row_offset(6_000, level, i) as i32, y: 0 },
        heading: QUARTER_TURN,
        speed,
        shape: ShotShape::Circle { radius: 4_000 },
        weapon_type: WeaponType::Homing,
        damage: 2,
        lifetime: 4_000_000,
        pierce: None,
        hit_list: false,
        payload: Payload::Homing(
            HomingMissile { target, turn_rate: (3_000 + 500 * level) as u32, max_lifetime: 4_000_000, speed },
        ),
        layer: CollisionLayer::PlayerBullet,
        mask: bullet_mask(),
    }
}

/// The missiles of one shot: as many as the level.
pub fn spawn_homing_missile(level: u32, target: Option<u64>, speed: u32) -> (shots: Vec<ProjectileSpawn>)
    requires
        1 <= level <= MAX_WEAPON_LEVEL,
    ensures
        shots@ == Seq::new(level as nat, |i: int| homing_missile(level as int, target, speed, i)),
{
    let mut shots: Vec<ProjectileSpawn> = Vec::new();
    let mut i: u32 = 0;
    while i < level
        invariant
            1 <= level <= MAX_WEAPON_LEVEL,
            i <= level,
            shots@ == Seq::new(i as nat, |k: int| homing_missile(level as int, target, speed, k)),
        decreases level - i,
    {
        shots.push(
            ProjectileSpawn {
                offset: Vec2D { x: row_position(6_000, level, i), y: 0 },
                heading: QUARTER_TURN,
                speed,
                shape: ShotShape::Circle { radius: 4_000 },
                weapon_type: WeaponType::Homing,
                damage: 2,
                lifetime: 4_000_000,
                pierce: None,
                hit_list: false,
                payload: Payload::Homing(
                    HomingMissile { target, turn_rate: 3_000 + 500 * level, max_lifetime: 4_000_000, speed },
                ),
                layer: CollisionLayer::PlayerBullet,
                mask: player_bullet_mask(),
            },
        );
        i = i + 1;
        assert(shots@ =~= Seq::new(i as nat, |k: int| homing_missile(level as int, target, speed, k)));
    }
    shots
}

/// The strike of a lightning weapon of `level`: it reaches three targets and
/// one more for each level, jumps 280 pixels and 50 more for each level but no
/// more than 600, and deals three damage and one more for each level.
pub open spec fn lightning_cast(level: int) -> LightningCast {
    LightningCast {
        jumps: (3 + level) as u32,
        range: min_int(280_000 + 50_000 * level, 600_000) as u32,
        damage: (3 + level) as i32,
    }
}

/// The strike of one shot of the lightning weapon.
pub fn spawn_lightning(level: u32) -> (cast: LightningCast)
    requires
        1 <= level <= MAX_WEAPON_LEVEL,
    ensures
        cast == lightning_cast(level as int),
{
    let reach = 280_000 + 50_000 * level;
    LightningCast {
        jumps: 3 + level,
        range: if reach > 600_000 {
            600_000
        } else {
            reach
        },
        damage: (3 + level) as i32,
    }
}

/// Orb `i` of `count` orbs that circle the ship at `orbit_radius`: the orbs
/// divide the circle evenly; each stays for good, passes through every enemy,
/// striking each once, and swallows enemy bullets.
pub open spec fn aura_orb(count: int, orbit_radius: u32, orbit_speed: u32, i: int) -> ProjectileSpawn {
    let angle = ring_angle(0, count, i) as i32;
    ProjectileSpawn {
        offset: Vec2D { x: 0, y: 0 },
        heading: 0,
        speed: 0,
        shape: ShotShape::Circle { radius: 8_000 },
        weapon_type: WeaponType::Aura,
        damage: 1,
        lifetime: i64::MAX,
        pierce: Some(Pierce { remaining: INFINITE_PIERCE }),
        hit_list: true,
        payload: Payload::Orb(AuraOrb { orbit_angle: angle, orbit_speed, orbit_radius }),
        layer: CollisionLayer::PlayerBullet,
        mask: orb_mask(),
    }
}

/// Orb `i` of a ring of `count` orbs.
pub fn make_orb(count: u32, orbit_radius: u32, orbit_speed: u32, i: u32) -> (orb: ProjectileSpawn)
    requires
        0 < count,
        i < count,
    ensures
        orb == aura_orb(count as int, orbit_radius, orbit_speed, i as int),
{
    ProjectileSpawn {
        offset: Vec2D { x: 0, y: 0 },
        heading: 0,
        speed: 0,
        shape: ShotShape::Circle { radius: 8_000 },
        weapon_type: WeaponType::Aura,
        damage: 1,
        lifetime: i64::MAX,
        pierce: Some(Pierce { remaining: INFINITE_PIERCE }),
        hit_list: true,
        payload: Payload::Orb(AuraOrb { orbit_angle: ring_direction(0, count, i), orbit_speed, orbit_radius }),
        layer: CollisionLayer::PlayerBullet,
        mask: CollisionMask::aura_orb_mask_value(),
    }
}

/// A ring of orbs for an aura of `level`: two orbs and one more for each
/// level, 40 pixels from the ship, circling at two radians per second.
pub fn spawn_aura_orbs(level: u32) -> (shots: Vec<ProjectileSpawn>)
    requires
        1 <= level <= MAX_WEAPON_LEVEL,
    ensures
        shots@ == Seq::new((2 + level) as nat, |i: int| aura_orb(2 + level, 40_000, 114_592, i)),
{
    let orb_count = 2 + level;
    let mut shots: Vec<ProjectileSpawn> = Vec::new();
    let mut i: u32 = 0;
    while i < orb_count
        invariant
            orb_count == 2 + level,
            i <= orb_count,
            shots@ == Seq::new(i as nat, |k: int| aura_orb(2 + level, 40_000, 114_592, k)),
        decreases orb_count - i,
    {
        shots.push(make_orb(orb_count, 40_000, 114_592, i));
        i = i + 1;
        assert(shots@ =~= Seq::new(i as nat, |k: int| aura_orb(2 + level, 40_000, 114_592, k)));
    }
    shots
}

/// Radius of the crescent of a beam wave: a quarter of the window's width.
pub open spec fn wave_radius(config: GameConfig) -> int {
    config.window_width as int / 4
}

/// Thickness of the crescent in its middle: 10 pixels and 1.2 more for each level.
pub open spec fn wave_thickness(level: int) -> int {
    10_000 + 1_200 * level
}

/// The crescent of a beam wave of `level`: it starts ahead of the ship, flies
/// straight up at nine tenths of a bullet's speed and passes through every
/// enemy, striking each once.
pub open spec fn beam_wave(config: GameConfig, level: int) -> ProjectileSpawn {
    ProjectileSpawn {
        offset: Vec2D { x: 0, y: 40_000 },
        heading: QUARTER_TURN,
        speed: (config.bullet_speed * 9 / 10) as u32,
        shape: ShotShape::Circle { radius: (wave_radius(config) + wave_thickness(level) * 6 / 10) as u32 },
        weapon_type: WeaponType::Beam,
        damage: (4 + 2 * level) as i32,
        lifetime: 2_000_000,
        pierce: Some(Pierce { remaining: INFINITE_PIERCE }),
        hit_list: true,
        payload: Payload::Wave(BeamWave { progress: 0, width: wave_radius(config) as u32 }),
        layer: CollisionLayer::PlayerBullet,
        mask: bullet_mask(),
    }
}

/// The crescent of one shot of the beam weapon.
pub fn spawn_beam_wave(config: &GameConfig, level: u32) -> (shot: ProjectileSpawn)
    requires
        1 <= level <= MAX_WEAPON_LEVEL,
        config.wf(),
    ensures
        shot == beam_wave(*config, level as int),
{
    let radius = config.window_width / 4;
    let thickness = 10_000 + 1_200 * level;
    ProjectileSpawn {
        offset: Vec2D { x: 0, y: 40_000 },
        heading: QUARTER_TURN,
        speed: (config.bullet_speed as u64 * 9 / 10) as u32,
        shape: ShotShape::Circle { radius: radius + thickness * 6 / 10 },
        weapon_type: WeaponType::Beam,
        damage: (4 + 2 * level) as i32,
        lifetime: 2_000_000,
        pierce: Some(Pierce { remaining: INFINITE_PIERCE }),
        hit_list: true,
        payload: Payload::Wave(BeamWave { progress: 0, width: radius }),
        layer: CollisionLayer::PlayerBullet,
        mask: player_bullet_mask(),
    }
}

/// The plain projectile of a ship without weapons.
pub open spec fn default_bullet(speed: u32) -> ProjectileSpawn {
    ProjectileSpawn {
        offset: Vec2D { x: 0, y: 0 },
        heading: QUARTER_TURN,
        speed,
        shape: ShotShape::Circle { radius: 6_000 },
        weapon_type: WeaponType::Shotgun,
        damage: 1,
        lifetime: 3_000_000,
        pierce: None,
        hit_list: false,
        payload: Payload::Plain,
        layer: CollisionLayer::PlayerBullet,
        mask: bullet_mask(),
    }
}

/// The plain projectile of a ship without weapons: one damage, straight up.
pub fn spawn_default_bullet(speed: u32) -> (shot: ProjectileSpawn)
    ensures
        shot == default_bullet(speed),
{
    ProjectileSpawn {
        offset: Vec2D { x: 0, y: 0 },
        heading: QUARTER_TURN,
        speed,
        shape: ShotShape::Circle { radius: 6_000 },
        weapon_type: WeaponType::Shotgun,
        damage: 1,
        lifetime: 3_000_000,
        pierce: None,
        hit_list: false,
        payload: Payload::Plain,
        layer: CollisionLayer::PlayerBullet,
        mask: player_bullet_mask(),
    }
}

/// A plain bullet to bring into the world.
#[derive(Clone, Copy, PartialEq, Eq, Structural, Debug)]
pub struct BulletSpawn {
    pub bullet: Bullet,
    pub hitbox: Hitbox,
}

/// Radius of the collision circle of the ship's plain bullet.
pub const PLAYER_BULLET_RADIUS: u32 = 6_000;

/// The plain bullet of the ship, as a value: one damage, straight up at
/// `speed`, on the layer of the player's bullets and reacting to enemies.
pub open spec fn player_bullet(speed: u32) -> BulletSpawn {
    BulletSpawn {
        bullet: Bullet { velocity: Vec2D { x: 0, y: speed as i32 }, damage: 1, is_player_bullet: true },
        hitbox: hitbox_on(CollisionLayer::PlayerBullet, PLAYER_BULLET_RADIUS as int),
    }
}

/// The plain bullet of the ship: one damage, straight up at `speed`.
pub fn spawn_player_bullet(speed: u32) -> (spawn: BulletSpawn)
    requires
        speed <= i32::MAX,
    ensures
        spawn == player_bullet(speed),
{
    BulletSpawn {
        bullet: Bullet { velocity: Vec2D { x: 0, y: speed as i32 }, damage: 1, is_player_bullet: true },
        hitbox: Hitbox::on(CollisionLayer::PlayerBullet, PLAYER_BULLET_RADIUS),
    }
}

/// Every projectile of a weapon is on the layer of the player's bullets and
/// reacts to enemies; an orb of the aura reacts to enemy bullets as well.
pub proof fn lemma_projectile_layers(config: GameConfig, level: int, target: Option<u64>, speed: u32, i: int)
    ensures
        shotgun_pellet(level, speed, i).as_collider().layer == CollisionLayer::PlayerBullet,
        shotgun_pellet(level, speed, i).as_collider().mask == standard_mask(CollisionLayer::PlayerBullet),
        rocket(level, target, speed, i).as_collider().layer == CollisionLayer::PlayerBullet,
        rocket(level, target, speed, i).as_collider().mask == standard_mask(CollisionLayer::PlayerBullet),
        laser(level, i).as_collider().layer == CollisionLayer::PlayerBullet,
        laser(level, i).as_collider().mask == standard_mask(CollisionLayer::PlayerBullet),
        homing_missile(level, target, speed, i).as_collider().layer == CollisionLayer::PlayerBullet,
        homing_missile(level, target, speed, i).as_collider().mask == standard_mask(CollisionLayer::PlayerBullet),
        beam_wave(config, level).as_collider().layer == CollisionLayer::PlayerBullet,
        beam_wave(config, level).as_collider().mask == standard_mask(CollisionLayer::PlayerBullet),
        default_bullet(speed).as_collider().layer == CollisionLayer::PlayerBullet,
        default_bullet(speed).as_collider().mask == standard_mask(CollisionLayer::PlayerBullet),
        player_bullet(speed).hitbox.as_collider().layer == CollisionLayer::PlayerBullet,
        player_bullet(speed).hitbox.as_collider().mask == standard_mask(CollisionLayer::PlayerBullet),
{
}

/// The pellets of a shotgun lie within ten degrees to either side of straight
/// up, the outermost two on the edges of that cone, and mirror each other.
pub proof fn lemma_shotgun_cone(level: int, speed: u32, i: int)
    requires
        1 <= level,
        0 <= i < pellet_count(level),
    ensures
        80_000 <= fan_angle(90_000, 10_000, pellet_count(level), i) <= 100_000,
        fan_angle(90_000, 10_000, pellet_count(level), 0) == 80_000,
        fan_angle(90_000, 10_000, pellet_count(level), pellet_count(level) - 1) == 100_000,
        fan_angle(90_000, 10_000, pellet_count(level), i) + fan_angle(
            90_000,
            10_000,
            pellet_count(level),
            pellet_count(level) - 1 - i,
        ) == 180_000,
{
    crate::aim::lemma_fan_within(90_000, 10_000, pellet_count(level), i);
    crate::aim::lemma_fan_symmetric(90_000, 10_000, pellet_count(level), i);
}

} // verus!
