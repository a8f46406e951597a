use shoot::aim::{axis_velocity, fan_direction, ring_direction, row_position};
use shoot::arsenal::{
    spawn_aura_orbs, spawn_beam_wave, spawn_default_bullet, spawn_homing_missile, spawn_laser, spawn_lightning,
    spawn_player_bullet, spawn_rocket, spawn_shotgun_pellets, BulletSpawn, Payload, ShotShape,
};
use shoot::blueprints::Blueprint;
use shoot::collision::{CollisionLayer, CollisionMask, Hitbox};
use shoot::geometry::{CollisionShape, Vec2D};
use shoot::projectiles::{Bullet, LightningCast, Pierce, INFINITE_PIERCE};
use shoot::states::GameConfig;
use shoot::weapons::WeaponType;

#[test]
fn fans_rings_and_rows() {
    let fan: Vec<i32> = (0..4).map(|i| fan_direction(90_000, 10_000, 4, i)).collect();
    assert_eq!(fan, vec![80_000, 86_667, 93_333, 100_000]);
    let fan: Vec<i32> = (0..7).map(|i| fan_direction(-90_000, 60_000, 7, i)).collect();
    assert_eq!(fan, vec![-150_000, -130_000, -110_000, -90_000, -70_000, -50_000, -30_000]);
    let ring: Vec<i32> = (0..7).map(|i| ring_direction(0, 7, i)).collect();
    assert_eq!(ring, vec![0, 51_428, 102_857, 154_285, 205_714, 257_142, 308_571]);
    let row: Vec<i32> = (0..4).map(|i| row_position(7_500, 4, i)).collect();
    assert_eq!(row, vec![-22_500, -7_500, 7_500, 22_500]);
    assert_eq!(row_position(7_500, 1, 0), 0);
}

#[test]
fn velocities_along_the_axes() {
    assert_eq!(axis_velocity(90_000, 500), Some(Vec2D::new(0, 500)));
    assert_eq!(axis_velocity(-90_000, 500), Some(Vec2D::new(0, -500)));
    assert_eq!(axis_velocity(270_000, 500), Some(Vec2D::new(0, -500)));
    assert_eq!(axis_velocity(0, 500), Some(Vec2D::new(500, 0)));
    assert_eq!(axis_velocity(-360_000, 500), Some(Vec2D::new(500, 0)));
    assert_eq!(axis_velocity(180_000, 500), Some(Vec2D::new(-500, 0)));
    assert_eq!(axis_velocity(540_000, 500), Some(Vec2D::new(-500, 0)));
    assert_eq!(axis_velocity(45_000, 500), None);
    assert_eq!(axis_velocity(i32::MIN, 500), None);
}

#[test]
fn the_ship_without_weapons_fires_one_bullet_straight_up() {
    let config = GameConfig::default();
    assert_eq!(
        spawn_player_bullet(config.bullet_speed),
        BulletSpawn {
            bullet: Bullet { velocity: Vec2D::new(0, 500_000), damage: 1, is_player_bullet: true },
            hitbox: Hitbox {
                radius: 6_000,
                layer: CollisionLayer::PlayerBullet,
                mask: CollisionMask::player_bullet_mask(),
            },
        }
    );
    let shot = spawn_default_bullet(config.bullet_speed);
    assert_eq!((shot.heading, shot.speed, shot.damage, shot.lifetime), (90_000, 500_000, 1, 3_000_000));
    assert_eq!(shot.shape, ShotShape::Circle { radius: 6_000 });
    assert_eq!(shot.pierce, None);
    assert!(!shot.hit_list);
    assert_eq!(shot.payload, Payload::Plain);
    assert_eq!(shot.mask, CollisionMask::player_bullet_mask());
    assert_eq!(shot.layer, CollisionLayer::PlayerBullet);
    let collider = shot.collider();
    assert!(matches!(collider.shape, CollisionShape::Circle { radius: 6_000 }));
    assert_eq!((collider.layer, collider.mask), (CollisionLayer::PlayerBullet, CollisionMask::player_bullet_mask()));
}

#[test]
fn a_shotgun_of_level_one_fires_two_pellets_in_a_twenty_degree_cone() {
    let pellets = spawn_shotgun_pellets(1, 500_000);
    assert_eq!(pellets.len(), 2);
    assert_eq!(pellets[0].heading, 80_000);
    assert_eq!(pellets[1].heading, 100_000);
    for pellet in pellets.iter() {
        assert_eq!((pellet.speed, pellet.damage, pellet.lifetime), (500_000, 1, 1_600_000));
        assert_eq!(pellet.weapon_type, WeaponType::Shotgun);
        assert_eq!(pellet.offset, Vec2D::zero());
    }
}

#[test]
fn shotgun_pellets_mirror_each_other() {
    for level in 1..=5u32 {
        let pellets = spawn_shotgun_pellets(level, 500_000);
        assert_eq!(pellets.len() as u32, 2 + (level - 1) * 2);
        let n = pellets.len();
        for i in 0..n {
            assert!((80_000..=100_000).contains(&pellets[i].heading));
            assert_eq!(pellets[i].heading + pellets[n - 1 - i].heading, 180_000);
            match pellets[i].payload {
                Payload::Pellet(p) => assert_eq!(p.spread_angle, pellets[i].heading),
                other => panic!("unexpected payload {:?}", other),
            }
        }
    }
}

#[test]
fn rockets_come_side_by_side() {
    let rockets = spawn_rocket(3, Some(77), 500_000);
    let places: Vec<i32> = rockets.iter().map(|r| r.offset.x).collect();
    assert_eq!(places, vec![-15_000, 0, 15_000]);
    for rocket in rockets.iter() {
        assert_eq!((rocket.speed, rocket.damage, rocket.lifetime, rocket.heading), (600_000, 5, 5_000_000, 90_000));
        match rocket.payload {
            Payload::Rocket(r) => {
                assert_eq!((r.target, r.initialized, r.speed, r.explosion_radius), (Some(77), false, 600_000, 45_000));
            }
            other => panic!("unexpected payload {:?}", other),
        }
    }
    assert_eq!(spawn_rocket(1, None, 500_000).len(), 1);
    assert_eq!(spawn_rocket(1, None, u32::MAX)[0].speed, u32::MAX);
}

#[test]
fn lasers_pierce_everything() {
    let counts: Vec<usize> = (1..=5).map(|l| spawn_laser(l).len()).collect();
    assert_eq!(counts, vec![1, 1, 2, 2, 3]);
    let beams = spawn_laser(5);
    let places: Vec<i32> = beams.iter().map(|b| b.offset.x).collect();
    assert_eq!(places, vec![-25_000, 0, 25_000]);
    for beam in beams.iter() {
        assert_eq!(beam.offset.y, 115_000);
        assert_eq!(beam.shape, ShotShape::Rectangle { width: 7_500, height: 150_000 });
        assert_eq!(beam.pierce, Some(Pierce { remaining: INFINITE_PIERCE }));
        assert_eq!(beam.layer, CollisionLayer::PlayerBullet);
        assert!(matches!(beam.collider().shape, CollisionShape::Rectangle { width: 7_500, height: 150_000 }));
        assert!(beam.hit_list);
        assert_eq!((beam.damage, beam.speed, beam.lifetime), (7, 600_000, 2_000_000));
    }
    assert_eq!(spawn_laser(1)[0].shape, ShotShape::Rectangle { width: 4_700, height: 150_000 });
}

#[test]
fn homing_missiles_turn_faster_with_the_level() {
    let missiles = spawn_homing_missile(2, None, 400_000);
    let places: Vec<i32> = missiles.iter().map(|m| m.offset.x).collect();
    assert_eq!(places, vec![-6_000, 6_000]);
    match missiles[0].payload {
        Payload::Homing(h) => assert_eq!((h.turn_rate, h.max_lifetime, h.speed), (4_000, 4_000_000, 400_000)),
        other => panic!("unexpected payload {:?}", other),
    }
    assert_eq!(missiles[0].damage, 2);
}

#[test]
fn lightning_reaches_further_with_the_level_up_to_its_cap() {
    assert_eq!(spawn_lightning(1), LightningCast { jumps: 4, range: 330_000, damage: 4 });
    assert_eq!(spawn_lightning(5), LightningCast { jumps: 8, range: 530_000, damage: 8 });
}

#[test]
fn aura_orbs_divide_the_circle_and_swallow_bullets() {
    let orbs = spawn_aura_orbs(1);
    assert_eq!(orbs.len(), 3);
    let angles: Vec<i32> = orbs
        .iter()
        .map(|o| match o.payload {
            Payload::Orb(orb) => {
                assert_eq!((orb.orbit_radius, orb.orbit_speed), (40_000, 114_592));
                orb.orbit_angle
            }
            other => panic!("unexpected payload {:?}", other),
        })
        .collect();
    assert_eq!(angles, vec![0, 120_000, 240_000]);
    assert!(orbs[0].mask.can_collide_with(CollisionLayer::EnemyBullet));
    assert!(orbs[0].mask.can_collide_with(CollisionLayer::Enemy));
    assert!(!orbs[0].mask.can_collide_with(CollisionLayer::Player));
    assert_eq!(orbs[0].lifetime, i64::MAX);
    assert_eq!(spawn_aura_orbs(5).len(), 7);
}

#[test]
fn the_beam_wave_spans_half_the_window() {
    let config = GameConfig::default();
    let wave = spawn_beam_wave(&config, 3);
    assert_eq!(wave.offset, Vec2D::new(0, 40_000));
    assert_eq!(wave.speed, 450_000);
    assert_eq!(wave.damage, 10);
    // 120 px and six tenths of 13.6 px
    assert_eq!(wave.shape, ShotShape::Circle { radius: 128_160 });
    match wave.payload {
        Payload::Wave(w) => assert_eq!((w.progress, w.width), (0, 120_000)),
        other => panic!("unexpected payload {:?}", other),
    }
}

#[test]
fn outlines_have_their_collision_circles() {
    assert_eq!(Blueprint::PlayerRaidenMk1.collision_radius(), 18_000);
    assert_eq!(Blueprint::EnemyBulletRing.collision_radius(), 7_500);
    assert_eq!(Blueprint::EnemyBulletNeedle.collision_radius(), 6_500);
    assert_eq!(Blueprint::EliteGuard.collision_radius(), 30_000);
    assert_eq!(Blueprint::PowerUpCoin.collision_radius(), 10_000);
    assert!(matches!(Blueprint::RaidenEnemyTank.collision(), CollisionShape::Circle { radius: 22_000 }));
    let collider = Blueprint::DefaultEnemy.collider(CollisionLayer::Enemy, CollisionMask::enemy_mask());
    assert!(matches!(collider.shape, CollisionShape::Circle { radius: 16_000 }));
    assert_eq!(collider.layer, CollisionLayer::Enemy);
    assert_eq!(collider.mask, CollisionMask::enemy_mask());
}
