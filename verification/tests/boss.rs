use shoot::boss::{boss_attack_cooldown, check_boss_spawn, plan_boss_spawn, Boss, BossState, BossType};
use shoot::boss_combat::{boss_collision_handler, boss_index, BossUnit};
use shoot::collision::{CollisionEvent, CollisionLayer, CollisionMask, Hitbox};
use shoot::combat::{Effect, Projectile};
use shoot::geometry::Vec2D;
use shoot::projectiles::{Bullet, HitList, Pierce, RocketBullet, WeaponBullet, INFINITE_PIERCE};
use shoot::states::{GameConfig, GameData};
use shoot::weapons::WeaponType;

#[test]
fn boss_tables() {
    let all = BossType::all();
    assert_eq!(all.len(), 10);
    let health: Vec<i32> = all.iter().map(|b| b.base_health()).collect();
    assert_eq!(health, vec![2000, 3000, 1600, 2400, 3600, 2000, 1800, 1400, 2200, 2600]);
    let score: Vec<u32> = all.iter().map(|b| b.score_value()).collect();
    assert_eq!(score, vec![2000, 3000, 1500, 2500, 3500, 2000, 1800, 1500, 2200, 2800]);
    let radius: Vec<u32> = all.iter().map(|b| b.collision_radius()).collect();
    assert_eq!(radius, vec![48_000, 54_000, 42_000, 48_000, 60_000, 48_000, 54_000, 48_000, 42_000, 60_000]);
    for (i, kind) in all.iter().enumerate() {
        assert_eq!(BossType::from_index(i as u32), *kind);
    }
    assert_eq!(BossType::from_index(77), BossType::ChaosEye);
    assert_eq!(BossType::DiamondKing.name(), "菱形王");
    assert_eq!(BossType::TrackerPrime.name(), "追踪者Prime");
}

#[test]
fn cooldowns_shorten_from_phase_to_phase() {
    for kind in BossType::all() {
        let (a, b, c) =
            (boss_attack_cooldown(kind, 1), boss_attack_cooldown(kind, 2), boss_attack_cooldown(kind, 3));
        assert!(a > b && b > c && c > 0);
    }
    assert_eq!(boss_attack_cooldown(BossType::HexFortress, 1), 1_600_000);
    assert_eq!(boss_attack_cooldown(BossType::CircleGuardian, 2), 1_200_000);
    assert_eq!(boss_attack_cooldown(BossType::SpiralShooter, 3), 900_000);
    assert_eq!(boss_attack_cooldown(BossType::CrossLaser, 1), 1_400_000);
    assert_eq!(boss_attack_cooldown(BossType::SplitCore, 2), 1_050_000);
    assert_eq!(boss_attack_cooldown(BossType::TrackerPrime, 3), 800_000);
    assert_eq!(boss_attack_cooldown(BossType::DiamondKing, 1), 1_800_000);
    assert_eq!(boss_attack_cooldown(BossType::ChaosEye, 2), 1_350_000);
    assert_eq!(boss_attack_cooldown(BossType::StarMothership, 3), 1_000_000);
    assert_eq!(boss_attack_cooldown(BossType::TriangleFighter, 0), 1_000_000);
}

#[test]
fn phase_follows_the_share_of_health() {
    let mut boss = Boss::new(BossType::DiamondKing, 1000);
    assert_eq!((boss.phase, boss.attack_timer, boss.score_value, boss.entered), (1, 2_000_000, 2000, false));
    for (health, phase) in [(1000, 1), (601, 1), (600, 2), (301, 2), (300, 3), (1, 3), (0, 3), (-50, 3)] {
        boss.health = health;
        assert_eq!(boss.current_phase(), phase, "health {}", health);
    }
}

#[test]
fn phase_flips_with_the_health_in_the_same_update() {
    let mut boss = Boss::new(BossType::HexFortress, 1000);
    boss.health = 601;
    boss.update_phase();
    assert_eq!(boss.phase, 1);
    boss.health = 600;
    boss.update_phase();
    assert_eq!(boss.phase, 2);
    boss.health = 300;
    boss.update_phase();
    assert_eq!(boss.phase, 3);
}

#[test]
fn health_percent_is_guarded() {
    let mut state = BossState::default();
    assert_eq!(state.health_percent(), 0);
    state.total_health = 2000;
    state.current_health = 500;
    assert_eq!(state.health_percent(), 25);
    state.current_health = 1999;
    assert_eq!(state.health_percent(), 99);
    state.current_health = 2000;
    assert_eq!(state.health_percent(), 100);
    // more than there was: the share stays at 100
    state.current_health = 3000;
    assert_eq!(state.health_percent(), 100);
    state.current_health = i32::MAX;
    state.total_health = 1;
    assert_eq!(state.health_percent(), 100);
    state.total_health = 2000;
    state.current_health = -3;
    assert_eq!(state.health_percent(), 0);
    state.total_health = 0;
    state.current_health = 5;
    assert_eq!(state.health_percent(), 0);
    state.active = true;
    state.clear();
    assert!(!state.active);
    assert_eq!(state.current_health, 0);
}

#[test]
fn a_boss_appears_every_tenth_level() {
    let config = GameConfig::default();
    let mut game = GameData::new();
    let mut state = BossState::default();
    for level in [1, 5, 9] {
        game.player_level = level;
        assert_eq!(plan_boss_spawn(&game, &mut state, &config, false, 4), None);
    }
    assert_eq!(state, BossState::default());
    game.player_level = 10;
    assert_eq!(plan_boss_spawn(&game, &mut state, &config, true, 4), None);
    let spawn = plan_boss_spawn(&game, &mut state, &config, false, 4).unwrap();
    assert_eq!(spawn.position, Vec2D::new(0, 460_000));
    assert_eq!(spawn.boss, Boss::new(BossType::CircleGuardian, 3600));
    assert_eq!(
        spawn.hitbox,
        Hitbox { radius: 60_000, layer: CollisionLayer::Enemy, mask: CollisionMask::enemy_mask() }
    );
    assert_eq!(
        state,
        BossState {
            active: true,
            last_boss_level: 10,
            total_health: 3600,
            current_health: 3600,
            boss_type: Some(BossType::CircleGuardian),
        }
    );
    // none while one is fought, and none at the same ten again
    game.player_level = 25;
    assert_eq!(plan_boss_spawn(&game, &mut state, &config, false, 0), None);
    state.active = false;
    game.player_level = 19;
    assert_eq!(plan_boss_spawn(&game, &mut state, &config, false, 0), None);
    game.player_level = 37;
    let spawn = plan_boss_spawn(&game, &mut state, &config, false, 0).unwrap();
    assert_eq!(spawn.boss.health, 6000);
    assert_eq!(state.last_boss_level, 30);
}

#[test]
fn the_drawn_boss_is_one_of_the_ten() {
    let config = GameConfig::default();
    let mut game = GameData::new();
    game.player_level = 20;
    for _ in 0..100 {
        let mut state = BossState::default();
        let spawn = check_boss_spawn(&game, &mut state, &config, false).unwrap();
        assert_eq!(spawn.boss.health, spawn.boss.boss_type.base_health() * 2);
        assert_eq!(state.boss_type, Some(spawn.boss.boss_type));
        assert!(state.active);
        assert_eq!(check_boss_spawn(&game, &mut state, &config, false), None);
    }
}

fn boss(entity: u64, health: i32) -> BossUnit {
    BossUnit { entity, position: Vec2D::new(0, 240_000), despawned: false, boss: Boss::new(BossType::SplitCore, health) }
}

fn projectile(entity: u64) -> Projectile {
    Projectile {
        entity,
        position: Vec2D::new(3, 4),
        despawned: false,
        bullet: None,
        weapon_bullet: None,
        pierce: None,
        hit_list: None,
        rocket: None,
    }
}

fn hit(projectile: u64, boss: u64) -> CollisionEvent {
    CollisionEvent {
        entity_a: projectile,
        entity_b: boss,
        layer_a: CollisionLayer::PlayerBullet,
        layer_b: CollisionLayer::Enemy,
    }
}

fn fighting(health: i32) -> BossState {
    BossState {
        active: true,
        last_boss_level: 10,
        total_health: health,
        current_health: health,
        boss_type: Some(BossType::SplitCore),
    }
}

#[test]
fn bullets_wear_the_boss_down() {
    let mut game = GameData::new();
    let mut state = fighting(1400);
    let mut bosses = vec![boss(7, 1400)];
    let mut plain = projectile(1);
    plain.bullet = Some(Bullet { velocity: Vec2D::new(0, 1), damage: 1, is_player_bullet: true });
    let mut orb = projectile(2);
    orb.weapon_bullet =
        Some(WeaponBullet { weapon_type: WeaponType::Aura, damage: 1, velocity: Vec2D::zero(), lifetime: i64::MAX });
    orb.pierce = Some(Pierce { remaining: INFINITE_PIERCE });
    orb.hit_list = Some(HitList::default());
    let mut projectiles = vec![plain, orb];
    let events = vec![
        hit(1, 7),
        hit(2, 7),
        hit(2, 7),
        CollisionEvent { entity_a: 7, entity_b: 2, layer_a: CollisionLayer::Enemy, layer_b: CollisionLayer::PlayerBullet },
        hit(1, 7),
        hit(2, 8),
    ];
    let effects = boss_collision_handler(&events, &mut game, &mut state, &mut bosses, &mut projectiles);
    assert!(effects.is_empty());
    assert_eq!(bosses[0].boss.health, 1398);
    assert_eq!(state.current_health, 1398);
    assert!(state.active);
    assert!(projectiles[0].despawned);
    assert!(!projectiles[1].despawned);
    assert_eq!(boss_index(&bosses, 7), Some(0));
    assert_eq!(boss_index(&bosses, 8), None);
}

#[test]
fn a_hit_puts_the_boss_into_the_phase_of_its_health() {
    let mut game = GameData::new();
    let mut state = fighting(1000);
    let mut unit = boss(7, 1000);
    unit.boss.health = 601;
    unit.boss.entered = true;
    let mut bosses = vec![unit];
    let shot = |entity: u64, damage: i32| {
        let mut p = projectile(entity);
        p.bullet = Some(Bullet { velocity: Vec2D::new(0, 1), damage, is_player_bullet: true });
        p
    };
    let mut projectiles = vec![shot(1, 1), shot(2, 299), shot(3, 1), shot(4, 0)];
    boss_collision_handler(&vec![hit(1, 7)], &mut game, &mut state, &mut bosses, &mut projectiles);
    assert_eq!((bosses[0].boss.health, bosses[0].boss.phase), (600, 2));
    assert_eq!(state.current_health, 600);
    boss_collision_handler(&vec![hit(2, 7)], &mut game, &mut state, &mut bosses, &mut projectiles);
    assert_eq!((bosses[0].boss.health, bosses[0].boss.phase), (301, 2));
    boss_collision_handler(&vec![hit(3, 7)], &mut game, &mut state, &mut bosses, &mut projectiles);
    assert_eq!((bosses[0].boss.health, bosses[0].boss.phase), (300, 3));
    // a stale phase is put right by any hit, even one without damage
    bosses[0].boss.health = 900;
    boss_collision_handler(&vec![hit(4, 7)], &mut game, &mut state, &mut bosses, &mut projectiles);
    assert_eq!((bosses[0].boss.health, bosses[0].boss.phase), (900, 1));
}

#[test]
fn a_defeated_boss_ends_the_fight_and_awards_experience() {
    let mut game = GameData::new();
    let mut state = fighting(3);
    let mut bosses = vec![boss(7, 3)];
    let mut rocket = projectile(1);
    rocket.weapon_bullet = Some(WeaponBullet {
        weapon_type: WeaponType::Rocket,
        damage: 4,
        velocity: Vec2D::new(0, 1),
        lifetime: 5_000_000,
    });
    rocket.rocket = Some(RocketBullet { target: None, initialized: true, speed: 500_000, explosion_radius: 60_000 });
    let mut late = projectile(2);
    late.bullet = Some(Bullet { velocity: Vec2D::new(0, 1), damage: 1, is_player_bullet: true });
    let mut projectiles = vec![rocket, late];
    let effects =
        boss_collision_handler(&vec![hit(1, 7), hit(2, 7)], &mut game, &mut state, &mut bosses, &mut projectiles);
    assert_eq!(
        effects,
        vec![Effect::RocketExplosion { position: Vec2D::new(3, 4), shard_count: 15, base_speed: 500_000 }]
    );
    assert!(bosses[0].despawned);
    assert_eq!(bosses[0].boss.health, -1);
    assert!(!state.active);
    assert_eq!(state.current_health, 0);
    assert!(projectiles[0].despawned);
    // the boss is gone: the second bullet flies on
    assert!(!projectiles[1].despawned);
    assert_eq!((game.score, game.experience, game.player_level), (1500, 200, 2));
    assert!(game.upgrading);
}
