//! The ship's fire control: which weapons fire in a frame and at what, and
//! how the orbs of the aura are kept up.

use vstd::prelude::*;
use crate::arsenal::{
    aura_orb, beam_wave, homing_missile, laser, laser_count, lightning_cast, make_orb, pellet_count, rocket,
    player_bullet, shotgun_pellet, spawn_beam_wave, spawn_homing_missile, spawn_laser, spawn_lightning, spawn_player_bullet,
    spawn_rocket, spawn_shotgun_pellets, ProjectileSpawn,
};
use crate::collision::Hitbox;
use crate::flight::{closest_of, closest_upto};
use crate::geometry::Vec2D;
use crate::projectiles::{AuraOrb, Bullet, LightningCast};
use crate::states::GameConfig;
use crate::weapons::{find_weapon, Weapon, WeaponInventory, WeaponType};

verus! {

/// The clock of the ship's plain bullet.
#[derive(Clone, Copy, PartialEq, Eq, Structural, Debug)]
pub struct ShootCooldown {
    /// Time until the next bullet, in microseconds; the ship fires at zero or below.
    pub timer: i64,
    /// Time between two bullets, in microseconds.
    pub cooldown: u32,
}

/// Time for which the ship has been firing, in microseconds.
#[derive(Clone, Copy, PartialEq, Eq, Structural, Debug)]
pub struct AutoShootTimer {
    pub timer: u64,
}

impl Default for AutoShootTimer {
    fn default() -> (timer: AutoShootTimer)
        ensures
            timer.timer == 0,
    {
        AutoShootTimer { timer: 0 }
    }
}

/// An enemy or a boss that the ship can take aim at.
#[derive(Clone, Copy, PartialEq, Eq, Structural, Debug)]
pub struct Sighting {
    pub entity: u64,
    pub position: Vec2D,
}

/// Something that the ship fires.
#[derive(Clone, Copy, PartialEq, Eq, Structural, Debug)]
pub enum Shot {
    /// The plain bullet, appearing at `offset` from the ship.
    Bullet { offset: Vec2D, bullet: Bullet, hitbox: Hitbox },
    /// A projectile of a weapon.
    Projectile(ProjectileSpawn),
    /// A lightning strike, cast from where the ship is.
    Lightning(LightningCast),
}

/// How far ahead of the ship its plain bullet appears.
pub const BULLET_LEAD: i32 = 25_000;

/// Whether the ship can take aim at something at `position`: it is within
/// the window and not behind the ship.
pub open spec fn ahead(config: GameConfig, player: Vec2D, position: Vec2D) -> bool {
    &&& -(config.window_width / 2) <= position.x <= config.window_width / 2
    &&& -(config.window_height / 2) <= position.y <= config.window_height / 2
    &&& position.y >= player.y
}

/// The places of the sightings.
pub open spec fn places(sightings: Seq<Sighting>) -> Seq<Vec2D> {
    Seq::new(sightings.len(), |i: int| sightings[i].position)
}

/// For each sighting, whether the ship can take aim at it.
pub open spec fn aimable(config: GameConfig, player: Vec2D, sightings: Seq<Sighting>) -> Seq<bool> {
    Seq::new(sightings.len(), |i: int| ahead(config, player, sightings[i].position))
}

/// What the ship aims at: the nearest sighting ahead of it within the window;
/// of several that are equally near, the first.
pub open spec fn aim(config: GameConfig, player: Vec2D, sightings: Seq<Sighting>) -> Option<u64> {
    match closest_upto(
        places(sightings),
        aimable(config, player, sightings),
        player,
        sightings.len() as int,
    ) {
        Some(i) => Some(sightings[i as int].entity),
        None => None,
    }
}

/// Picks what the ship aims at.
pub fn nearest_enemy(config: &GameConfig, player: Vec2D, sightings: &Vec<Sighting>) -> (target: Option<u64>)
    ensures
        target == aim(*config, player, sightings@),
{
    let half_width = (config.window_width / 2) as i64;
    let half_height = (config.window_height / 2) as i64;
    let mut points: Vec<Vec2D> = Vec::new();
    let mut allowed: Vec<bool> = Vec::new();
    let mut i: usize = 0;
    while i < sightings.len()
        invariant
            i <= sightings@.len(),
            half_width == config.window_width / 2,
            half_height == config.window_height / 2,
            points@.len() == i,
            allowed@.len() == i,
            forall|k: int| 0 <= k < i ==> points@[k] == sightings@[k].position,
            forall|k: int| 0 <= k < i ==> allowed@[k] == ahead(*config, player, sightings@[k].position),
        decreases sightings@.len() - i,
    {
        let p = sightings[i].position;
        points.push(p);
        allowed.push(
            -half_width <= p.x as i64 && p.x as i64 <= half_width && -half_height <= p.y as i64 && p.y as i64
                <= half_height && p.y >= player.y,
        );
        i = i + 1;
    }
    assert(points@ =~= places(sightings@));
    assert(allowed@ =~= aimable(*config, player, sightings@));
    match closest_of(&points, &allowed, player) {
        Some(i) => {
            proof {
                vstd::std_specs::vec::axiom_spec_len(&points);
                crate::flight::lemma_closest(points@, allowed@, player, points@.len() as int);
            }
            Some(sightings[i].entity)
        },
        None => None,
    }
}

/// A weapon after a frame: its timer has run on, and starts over when the weapon fires.
pub open spec fn ticked(weapon: Weapon, delta: int) -> Weapon {
    Weapon {
        timer: if weapon.timer - delta <= 0 {
            weapon.cooldown as i64
        } else {
            (weapon.timer - delta) as i64
        },
        ..weapon
    }
}

/// The projectiles as shots.
pub open spec fn as_shots(spawns: Seq<ProjectileSpawn>) -> Seq<Shot> {
    Seq::new(spawns.len(), |i: int| Shot::Projectile(spawns[i]))
}

/// What a weapon fires when its timer has run out. The lightning needs
/// something to aim at; the aura never fires.
pub open spec fn fired(weapon: Weapon, config: GameConfig, target: Option<u64>) -> Seq<Shot> {
    let level = weapon.level as int;
    match weapon.weapon_type {
        WeaponType::Shotgun => as_shots(
            Seq::new(pellet_count(level) as nat, |i: int| shotgun_pellet(level, config.bullet_speed, i)),
        ),
        WeaponType::Rocket => as_shots(Seq::new(level as nat, |i: int| rocket(level, target, config.bullet_speed, i))),
        WeaponType::Laser => as_shots(Seq::new(laser_count(level) as nat, |i: int| laser(level, i))),
        WeaponType::Homing => as_shots(
            Seq::new(level as nat, |i: int| homing_missile(level, target, config.bullet_speed, i)),
        ),
        WeaponType::Lightning => if target is Some {
            seq![Shot::Lightning(lightning_cast(level))]
        } else {
            Seq::empty()
        },
        WeaponType::Aura => Seq::empty(),
        WeaponType::Beam => seq![Shot::Projectile(beam_wave(config, level))],
    }
}

/// What the first `upto` weapons fire in a frame, in order.
pub open spec fn salvo(weapons: Seq<Weapon>, config: GameConfig, target: Option<u64>, delta: int, upto: int) -> Seq<
    Shot,
>
    decreases upto,
{
    if upto <= 0 {
        Seq::empty()
    } else {
        let before = salvo(weapons, config, target, delta, upto - 1);
        if weapons[upto - 1].timer - delta <= 0 {
            before + fired(weapons[upto - 1], config, target)
        } else {
            before
        }
    }
}

/// Whether the ship fires its plain bullet in this frame: it still has it, or
/// has no weapon at all, and the bullet's timer runs out.
pub open spec fn bullet_fires(inventory: WeaponInventory, cooldown: ShootCooldown, delta: int) -> bool {
    (inventory.weapons@.len() == 0 || inventory.has_default_bullet) && cooldown.timer - delta <= 0
}

/// The plain bullet as a shot.
pub open spec fn plain_shot(config: GameConfig) -> Shot {
    Shot::Bullet {
        offset: Vec2D { x: 0, y: BULLET_LEAD },
        bullet: player_bullet(config.bullet_speed).bullet,
        hitbox: player_bullet(config.bullet_speed).hitbox,
    }
}

/// Everything that the ship fires in a frame: its plain bullet if that is
/// due, then what each weapon fires whose timer has run out.
pub open spec fn all_fire(
    inventory: WeaponInventory,
    cooldown: ShootCooldown,
    config: GameConfig,
    target: Option<u64>,
    delta: int,
) -> Seq<Shot> {
    let first = if bullet_fires(inventory, cooldown, delta) {
        seq![plain_shot(config)]
    } else {
        Seq::empty()
    };
    first + salvo(inventory.weapons@, config, target, delta, inventory.weapons@.len() as int)
}

fn append(shots: &mut Vec<Shot>, spawns: Vec<ProjectileSpawn>)
    ensures
        final(shots)@ == old(shots)@ + as_shots(spawns@),
{
    let mut i: usize = 0;
    while i < spawns.len()
        invariant
            i <= spawns@.len(),
            shots@ == old(shots)@ + as_shots(spawns@.take(i as int)),
        decreases spawns@.len() - i,
    {
        shots.push(Shot::Projectile(spawns[i]));
        i = i + 1;
        assert(shots@ =~= old(shots)@ + as_shots(spawns@.take(i as int)));
    }
    assert(spawns@.take(i as int) =~= spawns@);
}

fn fire(shots: &mut Vec<Shot>, weapon: &Weapon, config: &GameConfig, target: Option<u64>)
    requires
        weapon.wf(),
        config.wf(),
    ensures
        final(shots)@ == old(shots)@ + fired(*weapon, *config, target),
{
    match weapon.weapon_type {
        WeaponType::Shotgun => {
            append(shots, spawn_shotgun_pellets(weapon.level, config.bullet_speed));
        },
        WeaponType::Rocket => {
            append(shots, spawn_rocket(weapon.level, target, config.bullet_speed));
        },
        WeaponType::Laser => {
            append(shots, spawn_laser(weapon.level));
        },
        WeaponType::Homing => {
            append(shots, spawn_homing_missile(weapon.level, target, config.bullet_speed));
        },
        WeaponType::Lightning => {
            if target.is_some() {
                shots.push(Shot::Lightning(spawn_lightning(weapon.level)));
                assert(shots@ =~= old(shots)@ + fired(*weapon, *config, target));
            } else {
                assert(shots@ =~= old(shots)@ + fired(*weapon, *config, target));
            }
        },
        WeaponType::Aura => {
            assert(shots@ =~= old(shots)@ + fired(*weapon, *config, target));
        },
        WeaponType::Beam => {
            shots.push(Shot::Projectile(spawn_beam_wave(config, weapon.level)));
            assert(shots@ =~= old(shots)@ + fired(*weapon, *config, target));
        },
    }
}

/// Runs the ship's fire control for one frame: all timers run on, the plain
/// bullet and every weapon whose timer has run out fire, and their timers
/// start over. The weapons aim at the nearest sighting ahead of the ship.
pub fn auto_shoot_weapons(
    config: &GameConfig,
    auto_timer: &mut AutoShootTimer,
    inventory: &mut WeaponInventory,
    cooldown: &mut ShootCooldown,
    player: Vec2D,
    sightings: &Vec<Sighting>,
    delta: u32,
) -> (shots: Vec<Shot>)
    requires
        config.wf(),
        old(inventory).wf(),
        old(auto_timer).timer + delta <= u64::MAX,
        old(cooldown).timer - delta >= i64::MIN,
        forall|i: int|
            0 <= i < old(inventory).weapons@.len() ==> (#[trigger] old(inventory).weapons@[i]).timer - delta
                >= i64::MIN,
    ensures
        final(auto_timer).timer == old(auto_timer).timer + delta,
        *final(cooldown) == (ShootCooldown {
            timer: if bullet_fires(*old(inventory), *old(cooldown), delta as int) {
                old(cooldown).cooldown as i64
            } else {
                (old(cooldown).timer - delta) as i64
            },
            ..*old(cooldown)
        }),
        final(inventory).has_default_bullet == old(inventory).has_default_bullet,
        final(inventory).weapons@ == Seq::new(
            old(inventory).weapons@.len(),
            |i: int| ticked(old(inventory).weapons@[i], delta as int),
        ),
        final(inventory).wf(),
        shots@ == all_fire(
            *old(inventory),
            *old(cooldown),
            *config,
            aim(*config, player, sightings@),
            delta as int,
        ),
{
    let mut shots: Vec<Shot> = Vec::new();
    auto_timer.timer += delta as u64;
    cooldown.timer -= delta as i64;
    if inventory.weapons.len() == 0 || inventory.has_default_bullet {
        if cooldown.timer <= 0 {
            let spawn = spawn_player_bullet(config.bullet_speed);
            shots.push(Shot::Bullet { offset: Vec2D { x: 0, y: BULLET_LEAD }, bullet: spawn.bullet, hitbox: spawn.hitbox });
            cooldown.timer = cooldown.cooldown as i64;
        }
    }
    let target = nearest_enemy(config, player, sightings);
    let ghost first = shots@;
    let ghost before = inventory.weapons@;
    let mut i: usize = 0;
    while i < inventory.weapons.len()
        invariant
            config.wf(),
            i <= before.len(),
            inventory.weapons@.len() == before.len(),
            inventory.has_default_bullet == old(inventory).has_default_bullet,
            forall|k: int| 0 <= k < before.len() ==> (#[trigger] before[k]).wf() && before[k].timer - delta >= i64::MIN,
            forall|k: int| 0 <= k < i ==> inventory.weapons@[k] == ticked(before[k], delta as int),
            forall|k: int| i <= k < before.len() ==> inventory.weapons@[k] == before[k],
            shots@ == first + salvo(before, *config, target, delta as int, i as int),
        decreases before.len() - i,
    {
        let mut weapon = inventory.weapons[i];
        assert(weapon == before[i as int]);
        weapon.timer -= delta as i64;
        if weapon.timer <= 0 {
            fire(&mut shots, &inventory.weapons[i], config, target);
            weapon.timer = weapon.cooldown as i64;
            assert(shots@ =~= first + salvo(before, *config, target, delta as int, i as int + 1));
        }
        inventory.weapons.set(i, weapon);
        i = i + 1;
    }
    assert(inventory.weapons@ =~= Seq::new(before.len(), |k: int| ticked(before[k], delta as int)));
    assert forall|a: int, b: int| 0 <= a < b < inventory.weapons@.len() implies (#[trigger] inventory.weapons@[a]).weapon_type
        != (#[trigger] inventory.weapons@[b]).weapon_type by {
        assert(before[a].weapon_type != before[b].weapon_type);
    }
    shots
}

/// A ship without weapons whose bullet is due fires exactly its plain bullet:
/// one damage, straight up at the configured bullet speed, on the layer of
/// the player's bullets.
pub proof fn lemma_plain_bullet_alone(
    inventory: WeaponInventory,
    cooldown: ShootCooldown,
    config: GameConfig,
    target: Option<u64>,
    delta: int,
)
    requires
        inventory.weapons@.len() == 0,
        cooldown.timer - delta <= 0,
    ensures
        all_fire(inventory, cooldown, config, target, delta) == seq![plain_shot(config)],
        plain_shot(config) == (Shot::Bullet {
            offset: Vec2D { x: 0, y: BULLET_LEAD },
            bullet: Bullet {
                velocity: Vec2D { x: 0, y: config.bullet_speed as i32 },
                damage: 1,
                is_player_bullet: true,
            },
            hitbox: crate::collision::hitbox_on(crate::collision::CollisionLayer::PlayerBullet, 6_000),
        }),
{
    assert(salvo(inventory.weapons@, config, target, delta, 0) =~= Seq::<Shot>::empty());
    assert(seq![plain_shot(config)] + Seq::<Shot>::empty() =~= seq![plain_shot(config)]);
}

/// A ship whose only weapon is a shotgun of level 1 that is due, and whose
/// plain bullet is retired, fires exactly two pellets, ten degrees to either
/// side of straight up.
pub proof fn lemma_shotgun_fires_two(
    inventory: WeaponInventory,
    cooldown: ShootCooldown,
    config: GameConfig,
    target: Option<u64>,
    delta: int,
)
    requires
        inventory.weapons@.len() == 1,
        inventory.weapons@[0].weapon_type == WeaponType::Shotgun,
        inventory.weapons@[0].level == 1,
        inventory.weapons@[0].timer - delta <= 0,
        !inventory.has_default_bullet,
    ensures
        all_fire(inventory, cooldown, config, target, delta) == seq![
            Shot::Projectile(shotgun_pellet(1, config.bullet_speed, 0)),
            Shot::Projectile(shotgun_pellet(1, config.bullet_speed, 1)),
        ],
        shotgun_pellet(1, config.bullet_speed, 0).heading == 80_000,
        shotgun_pellet(1, config.bullet_speed, 1).heading == 100_000,
        shotgun_pellet(1, config.bullet_speed, 0).speed == config.bullet_speed,
        shotgun_pellet(1, config.bullet_speed, 0).damage == 1,
{
    let weapons = inventory.weapons@;
    let two = seq![
        Shot::Projectile(shotgun_pellet(1, config.bullet_speed, 0)),
        Shot::Projectile(shotgun_pellet(1, config.bullet_speed, 1)),
    ];
    assert(pellet_count(1) == 2);
    assert(fired(weapons[0], config, target) =~= two);
    assert(salvo(weapons, config, target, delta, 0) =~= Seq::<Shot>::empty());
    assert(salvo(weapons, config, target, delta, 1) =~= two) by {
        reveal_with_fuel(salvo, 2);
    }
    assert(Seq::<Shot>::empty() + two =~= two);
    crate::aim::lemma_fan_within(90_000, 10_000, 2, 0);
}

/// Number of orbs of an aura of `level`: one more than the level.
pub open spec fn orb_count(level: int) -> int {
    level + 1
}

/// Distance of the orbs from the ship: 50 pixels and 10 more for each level.
pub open spec fn orbit_radius(level: int) -> int {
    50_000 + 10_000 * level
}

/// Speed of the orbs on their orbit, in angle units per second: three
/// radians per second and half a radian more for each level.
pub open spec fn orbit_speed(level: int) -> int {
    171_887 + 28_648 * level
}

/// What to do about the orbs of the aura.
#[derive(Debug)]
pub struct AuraPlan {
    /// Whether every orb is removed: there is no ship, or it has no aura.
    pub despawn_all: bool,
    /// Distance from the ship and speed that every orb takes.
    pub orbit_radius: u32,
    pub orbit_speed: u32,
    /// The orbs to add.
    pub spawn: Vec<ProjectileSpawn>,
}

/// Keeps up the orbs of the aura. Without a ship or without an aura every orb
/// is removed. Else the orbs take the orbit of the aura's level, and as many
/// orbs are added as the level asks for beyond the `existing` ones.
pub fn update_aura_orbs(player_present: bool, inventory: &WeaponInventory, existing: u32) -> (plan: AuraPlan)
    requires
        inventory.wf(),
    ensures
        match find_weapon(inventory.weapons@, WeaponType::Aura, 0) {
            Some(i) => if player_present {
                let level = inventory.weapons@[i].level as int;
                &&& !plan.despawn_all
                &&& plan.orbit_radius == orbit_radius(level)
                &&& plan.orbit_speed == orbit_speed(level)
                &&& plan.spawn@ == Seq::new(
                    if existing < orb_count(level) {
                        (orb_count(level) - existing) as nat
                    } else {
                        0nat
                    },
                    |k: int|
                        aura_orb(
                            orb_count(level),
                            orbit_radius(level) as u32,
                            orbit_speed(level) as u32,
                            existing + k,
                        ),
                )
            } else {
                plan.despawn_all && plan.spawn@.len() == 0
            },
            None => plan.despawn_all && plan.spawn@.len() == 0,
        },
{
    if !player_present {
        return AuraPlan { despawn_all: true, orbit_radius: 0, orbit_speed: 0, spawn: Vec::new() };
    }
    let level = match inventory.get_weapon(WeaponType::Aura) {
        Some(weapon) => {
            proof {
                crate::weapons::lemma_find_weapon(inventory.weapons@, WeaponType::Aura, 0);
            }
            weapon.level
        },
        None => {
            return AuraPlan { despawn_all: true, orbit_radius: 0, orbit_speed: 0, spawn: Vec::new() };
        },
    };
    let count = level + 1;
    let radius = 50_000 + 10_000 * level;
    let speed = 171_887 + 28_648 * level;
    let mut spawn: Vec<ProjectileSpawn> = Vec::new();
    let mut i: u32 = existing;
    while i < count
        invariant
            count == level + 1,
            existing <= i,
            i <= count || i == existing,
            spawn@ == Seq::new((i - existing) as nat, |k: int| aura_orb(count as int, radius, speed, existing + k)),
        decreases count - i,
    {
        spawn.push(make_orb(count, radius, speed, i));
        i = i + 1;
        assert(spawn@ =~= Seq::new((i - existing) as nat, |k: int| aura_orb(count as int, radius, speed, existing + k)));
    }
    assert(spawn@ =~= Seq::new(
        if existing < orb_count(level as int) {
            (orb_count(level as int) - existing) as nat
        } else {
            0nat
        },
        |k: int|
            aura_orb(
                orb_count(level as int),
                orbit_radius(level as int) as u32,
                orbit_speed(level as int) as u32,
                existing + k,
            ),
    ));
    AuraPlan { despawn_all: false, orbit_radius: radius, orbit_speed: speed, spawn }
}

/// An orb after a frame on the orbit of the aura: its angle has advanced, kept within one turn.
pub open spec fn orb_after(orb: AuraOrb, radius: u32, speed: u32, delta: int) -> AuraOrb {
    AuraOrb {
        orbit_angle: ((orb.orbit_angle + speed * delta / 1_000_000) % 360_000) as i32,
        orbit_speed: speed,
        orbit_radius: radius,
    }
}

/// Moves an orb along the orbit for one frame. The host places the orb at the
/// orbit's radius from the ship, in the direction of the orb's angle.
pub fn advance_orb(orb: &mut AuraOrb, radius: u32, speed: u32, delta: u32)
    ensures
        *final(orb) == orb_after(*old(orb), radius, speed, delta as int),
        0 <= final(orb).orbit_angle < 360_000,
{
    assert(speed * delta <= 0xffff_ffff * 0xffff_ffff) by (nonlinear_arith)
        requires
            0 <= speed <= 0xffff_ffff,
            0 <= delta <= 0xffff_ffff,
    ;
    let turned: i64 = (speed as u64 * delta as u64 / 1_000_000) as i64;
    let sum: i64 = orb.orbit_angle as i64 + turned;
    let shifted: i64 = sum + 6000 * 360_000;
    orb.orbit_angle = (shifted % 360_000) as i32;
    orb.orbit_speed = speed;
    orb.orbit_radius = radius;
}

} // verus!
