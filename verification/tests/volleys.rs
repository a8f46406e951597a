use shoot::behavior::{
    boss_behavior, enemy_movement, enemy_shooting, handle_player_bullet_vs_enemy_bullet, plan_enemy_volley,
    EnemyBulletStyle, EnemyShot, EnemyStep, Sway,
};
use shoot::boss::{Boss, BossState, BossType};
use shoot::collision::{CollisionEvent, CollisionLayer, CollisionMask, Hitbox};
use shoot::combat::Projectile;
use shoot::enemy::{Enemy, EnemyMovement, EnemyType};
use shoot::geometry::Vec2D;
use shoot::projectiles::WeaponBullet;
use shoot::states::GameConfig;
use shoot::volleys::{execute_boss_attack, plan_boss_attack, BossShot};
use shoot::weapons::WeaponType;

fn boss(kind: BossType, phase: u32, pattern: u32) -> Boss {
    let mut boss = Boss::new(kind, 1000);
    boss.phase = phase;
    boss.attack_pattern = pattern;
    boss.entered = true;
    boss
}

fn headings(shots: &[BossShot]) -> Vec<i32> {
    shots.iter().map(|s| s.heading).collect()
}

#[test]
fn the_diamond_king_fires_a_growing_fan() {
    for (phase, count) in [(1, 7), (2, 9), (3, 11)] {
        let mut b = boss(BossType::DiamondKing, phase, 0);
        let shots = plan_boss_attack(&mut b, 0, &vec![], &vec![]);
        assert_eq!(shots.len(), count);
        assert_eq!(shots[0].heading, -150_000);
        assert_eq!(shots[count - 1].heading, -30_000);
        assert_eq!(shots[count / 2].heading, -90_000);
        assert!(shots.iter().all(|s| s.speed == 200_000 && s.damage == 1 && s.offset == Vec2D::zero()));
        assert_eq!(b.attack_pattern, 0);
    }
}

#[test]
fn the_fortress_and_the_spiral_turn_from_volley_to_volley() {
    let mut b = boss(BossType::HexFortress, 1, 0);
    assert_eq!(headings(&plan_boss_attack(&mut b, 0, &vec![], &vec![])), vec![0, 60_000, 120_000, 180_000, 240_000, 300_000]);
    assert_eq!(b.attack_pattern, 1);
    assert_eq!(headings(&plan_boss_attack(&mut b, 0, &vec![], &vec![]))[0], 30_000);
    b.attack_pattern = 11;
    assert_eq!(headings(&plan_boss_attack(&mut b, 0, &vec![], &vec![]))[5], 630_000);
    assert_eq!(b.attack_pattern, 0);
    let mut s = boss(BossType::SpiralShooter, 2, 15);
    let shots = plan_boss_attack(&mut s, 0, &vec![], &vec![]);
    assert_eq!(headings(&shots), vec![337_500, 427_500, 517_500, 607_500]);
    assert!(shots.iter().all(|x| x.speed == 160_000));
    assert_eq!(s.attack_pattern, 0);
}

#[test]
fn the_fixed_volleys() {
    let mut t = boss(BossType::TriangleFighter, 1, 0);
    assert_eq!(
        plan_boss_attack(&mut t, 0, &vec![], &vec![]),
        vec![
            BossShot { offset: Vec2D::new(-30_000, -40_000), heading: -90_000, speed: 300_000, damage: 2 },
            BossShot { offset: Vec2D::new(0, -40_000), heading: -90_000, speed: 300_000, damage: 2 },
            BossShot { offset: Vec2D::new(30_000, -40_000), heading: -90_000, speed: 300_000, damage: 2 },
        ]
    );
    let mut s = boss(BossType::StarMothership, 1, 0);
    assert_eq!(headings(&plan_boss_attack(&mut s, 0, &vec![], &vec![])), vec![-90_000, -18_000, 54_000, 126_000, 198_000]);
    let mut c = boss(BossType::SplitCore, 3, 0);
    assert_eq!(headings(&plan_boss_attack(&mut c, 0, &vec![], &vec![])), vec![0, 90_000, 180_000, 270_000]);
    for (phase, count, step) in [(1, 12, 30_000), (2, 16, 22_500), (3, 20, 18_000)] {
        let mut g = boss(BossType::CircleGuardian, phase, 0);
        let shots = plan_boss_attack(&mut g, 0, &vec![], &vec![]);
        assert_eq!(shots.len(), count);
        for (i, shot) in shots.iter().enumerate() {
            assert_eq!(shot.heading, step * i as i32);
            assert_eq!(shot.speed, 120_000);
        }
    }
}

#[test]
fn the_cross_fires_three_shots_along_each_arm() {
    let mut x = boss(BossType::CrossLaser, 1, 0);
    let shots = plan_boss_attack(&mut x, 0, &vec![], &vec![]);
    let seen: Vec<(i32, i32, i32)> = shots.iter().map(|s| (s.offset.x, s.offset.y, s.heading)).collect();
    assert_eq!(
        seen,
        vec![
            (0, 0, -90_000),
            (0, -20_000, -90_000),
            (0, -40_000, -90_000),
            (0, 0, 90_000),
            (0, 20_000, 90_000),
            (0, 40_000, 90_000),
            (0, 0, 180_000),
            (-20_000, 0, 180_000),
            (-40_000, 0, 180_000),
            (0, 0, 0),
            (20_000, 0, 0),
            (40_000, 0, 0),
        ]
    );
    assert!(shots.iter().all(|s| s.speed == 250_000 && s.damage == 1));
    assert_eq!(
        shots[0].hitbox(),
        Hitbox { radius: 8_000, layer: CollisionLayer::EnemyBullet, mask: CollisionMask::enemy_bullet_mask() }
    );
}

#[test]
fn the_scattering_bosses_use_their_draws() {
    let mut t = boss(BossType::TrackerPrime, 2, 0);
    let angles = vec![-45_000, 0, 44_999, 10, -10];
    let speeds = vec![150_000, 249_999, 200_000, 160_000, 170_000];
    let shots = plan_boss_attack(&mut t, 0, &angles, &speeds);
    assert_eq!(headings(&shots), vec![-135_000, -90_000, -45_001, -89_990, -90_010]);
    assert_eq!(shots.iter().map(|s| s.speed).collect::<Vec<u32>>(), speeds);
    let mut e = boss(BossType::ChaosEye, 1, 0);
    assert_eq!(plan_boss_attack(&mut e, 0, &vec![], &vec![]).len(), 12);
    let line = plan_boss_attack(&mut e, 1, &vec![], &vec![]);
    assert_eq!(line.iter().map(|s| s.offset.x).collect::<Vec<i32>>(), vec![-80_000, -40_000, 0, 40_000, 80_000]);
    assert!(line.iter().all(|s| s.heading == -90_000 && s.speed == 200_000));
    assert_eq!(headings(&plan_boss_attack(&mut e, 2, &vec![], &vec![])), vec![45_000, 135_000, 225_000, 315_000]);
    let angles: Vec<i32> = (0..8).map(|i| i * 40_000).collect();
    let speeds: Vec<u32> = (0..8).map(|i| 100_000 + i * 10_000).collect();
    let wild = plan_boss_attack(&mut e, 3, &angles, &speeds);
    assert_eq!(headings(&wild), angles);
}

#[test]
fn drawn_volleys_stay_in_their_ranges() {
    for _ in 0..200 {
        let mut t = boss(BossType::TrackerPrime, 3, 0);
        let shots = execute_boss_attack(&mut t);
        assert_eq!(shots.len(), 6);
        for s in shots.iter() {
            assert!((-135_000..-45_000).contains(&s.heading));
            assert!((150_000..250_000).contains(&s.speed));
        }
        let mut e = boss(BossType::ChaosEye, 1, 0);
        let shots = execute_boss_attack(&mut e);
        assert!([12, 5, 4, 8].contains(&shots.len()));
        if shots.len() == 8 {
            for s in shots.iter() {
                assert!((0..360_000).contains(&s.heading));
                assert!((100_000..200_000).contains(&s.speed));
            }
        }
    }
}

#[test]
fn a_boss_comes_down_then_fights() {
    let config = GameConfig::default();
    let mut state = BossState::default();
    let mut b = Boss::new(BossType::SplitCore, 1400);
    let moved = boss_behavior(&mut b, &mut state, &config, 460_000, 100_000);
    assert_eq!((moved.y, moved.sway, moved.shots.len()), (450_000, None, 0));
    assert!(!b.entered);
    assert_eq!(b.attack_timer, 2_000_000);
    let moved = boss_behavior(&mut b, &mut state, &config, 240_000, 100_000);
    assert_eq!((moved.y, moved.sway), (240_000, None));
    assert!(b.entered);
    assert_eq!(state.current_health, 0);
    // in place: the timers run, the phase follows the health
    b.health = 800;
    let moved = boss_behavior(&mut b, &mut state, &config, 240_000, 1_000_000);
    assert_eq!((moved.y, moved.sway, moved.shots.len()), (240_000, Some(28_648), 0));
    assert_eq!((b.phase, b.attack_timer, b.move_timer), (2, 1_000_000, 1_000_000));
    assert_eq!(state.current_health, 800);
    b.health = 300;
    let moved = boss_behavior(&mut b, &mut state, &config, 240_000, 1_000_000);
    assert_eq!(moved.shots.len(), 4);
    assert_eq!(moved.sway, Some(57_296));
    // the boss waits for the cooldown of the phase it is in now
    assert_eq!((b.phase, b.attack_timer), (3, 800_000));
}

#[test]
fn enemy_volleys() {
    let speed = 500_000;
    assert_eq!(
        plan_enemy_volley(EnemyType::Diamond, speed, false),
        vec![EnemyShot {
            offset: Vec2D::new(0, -24_000),
            heading: -90_000,
            speed: 300_000,
            damage: 1,
            style: EnemyBulletStyle::Shard,
        }]
    );
    let shard = plan_enemy_volley(EnemyType::Diamond, speed, false)[0];
    assert_eq!(
        shard.hitbox(),
        Hitbox { radius: 5_000, layer: CollisionLayer::EnemyBullet, mask: CollisionMask::enemy_bullet_mask() }
    );
    assert_eq!(plan_enemy_volley(EnemyType::Diamond, speed, true)[0].hitbox().radius, 6_500);
    assert_eq!(plan_enemy_volley(EnemyType::Hexagon, speed, true)[0].hitbox().radius, 7_500);
    for kind in [EnemyType::EliteScout, EnemyType::EliteGunship, EnemyType::EliteGuard] {
        assert!(plan_enemy_volley(kind, speed, false).iter().all(|s| s.damage == 1));
    }
    assert_eq!(plan_enemy_volley(EnemyType::Diamond, speed, true)[0].style, EnemyBulletStyle::Needle);
    assert_eq!(plan_enemy_volley(EnemyType::Hexagon, speed, true)[0].style, EnemyBulletStyle::Ring);
    assert_eq!(plan_enemy_volley(EnemyType::Small, speed, false)[0].style, EnemyBulletStyle::Needle);
    let scout = plan_enemy_volley(EnemyType::EliteScout, speed, false);
    let seen: Vec<(i32, u32, EnemyBulletStyle)> = scout.iter().map(|s| (s.heading, s.speed, s.style)).collect();
    assert_eq!(
        seen,
        vec![
            (-100_313, 275_000, EnemyBulletStyle::Ring),
            (-90_000, 325_000, EnemyBulletStyle::Shard),
            (-79_687, 275_000, EnemyBulletStyle::Ring),
            (-90_000, 425_000, EnemyBulletStyle::Needle),
        ]
    );
    let gunship = plan_enemy_volley(EnemyType::EliteGunship, speed, false);
    let seen: Vec<(i32, i32, u32)> = gunship.iter().map(|s| (s.offset.x, s.heading, s.speed)).collect();
    assert_eq!(
        seen,
        vec![
            (0, -111_486, 300_000),
            (0, -100_743, 300_000),
            (0, -90_000, 300_000),
            (0, -79_257, 300_000),
            (0, -68_514, 300_000),
            (-14_000, -104_036, 250_000),
            (14_000, -75_964, 250_000),
        ]
    );
    let guard = plan_enemy_volley(EnemyType::EliteGuard, speed, false);
    assert_eq!(guard.len(), 10);
    assert_eq!((guard[0].heading, guard[9].heading, guard[0].speed), (207_000, 333_000, 210_000));
    assert!(guard.iter().all(|s| s.style == EnemyBulletStyle::Ring && s.offset == Vec2D::new(0, -24_000)));
}

#[test]
fn an_enemy_fires_when_its_timer_runs_out() {
    let config = GameConfig::default();
    let mut enemy = Enemy {
        health: 1,
        max_health: 1,
        score_value: 1,
        enemy_type: EnemyType::EliteGuard,
        shoot_timer: 150_000,
        shoot_interval: 3_600_000,
    };
    assert!(enemy_shooting(&mut enemy, &config, 100_000).is_empty());
    assert_eq!(enemy.shoot_timer, 50_000);
    assert_eq!(enemy_shooting(&mut enemy, &config, 100_000).len(), 10);
    assert_eq!(enemy.shoot_timer, 3_600_000);
    enemy.enemy_type = EnemyType::Diamond;
    enemy.shoot_timer = 0;
    let mut needles = 0;
    for _ in 0..400 {
        enemy.shoot_timer = 0;
        let shots = enemy_shooting(&mut enemy, &config, 1);
        assert_eq!(shots.len(), 1);
        if shots[0].style == EnemyBulletStyle::Needle {
            needles += 1;
        } else {
            assert_eq!(shots[0].style, EnemyBulletStyle::Shard);
        }
    }
    assert!(needles > 0 && needles < 400);
}

#[test]
fn enemies_move_down() {
    let mut straight = EnemyMovement::Straight { speed: 150_000 };
    assert_eq!(enemy_movement(&mut straight, 0, 100_000), EnemyStep { y: -15_000, sway: None });
    let mut homing = EnemyMovement::Homing { speed: 100_000, turn_speed: 5 };
    assert_eq!(enemy_movement(&mut homing, 0, 100_000), EnemyStep { y: -10_000, sway: None });
    let mut sine = EnemyMovement::Sine { speed: 120_000, amplitude: 100_000, frequency: 90_000, time: 900_000 };
    assert_eq!(
        enemy_movement(&mut sine, 0, 100_000),
        EnemyStep { y: -12_000, sway: Some(Sway { phase: 90_000, reach: 10_000 }) }
    );
    assert_eq!(sine, EnemyMovement::Sine { speed: 120_000, amplitude: 100_000, frequency: 90_000, time: 1_000_000 });
    let mut post = EnemyMovement::Stationary { target_y: 100 };
    assert_eq!(enemy_movement(&mut post, 20_000, 100_000), EnemyStep { y: 10_000, sway: None });
    assert_eq!(enemy_movement(&mut post, 100, 100_000), EnemyStep { y: 100, sway: None });
}

#[test]
fn the_aura_swallows_enemy_bullets() {
    let orb = |entity: u64, kind: WeaponType| Projectile {
        entity,
        position: Vec2D::zero(),
        despawned: false,
        bullet: None,
        weapon_bullet: Some(WeaponBullet { weapon_type: kind, damage: 1, velocity: Vec2D::zero(), lifetime: 1 }),
        pierce: None,
        hit_list: None,
        rocket: None,
    };
    let projectiles = vec![orb(1, WeaponType::Aura), orb(2, WeaponType::Laser)];
    let meet = |a: u64, la: CollisionLayer, b: u64, lb: CollisionLayer| CollisionEvent {
        entity_a: a,
        entity_b: b,
        layer_a: la,
        layer_b: lb,
    };
    let events = vec![
        meet(1, CollisionLayer::PlayerBullet, 50, CollisionLayer::EnemyBullet),
        meet(2, CollisionLayer::PlayerBullet, 51, CollisionLayer::EnemyBullet),
        meet(52, CollisionLayer::EnemyBullet, 1, CollisionLayer::PlayerBullet),
        meet(1, CollisionLayer::PlayerBullet, 53, CollisionLayer::Enemy),
        meet(3, CollisionLayer::PlayerBullet, 54, CollisionLayer::EnemyBullet),
    ];
    assert_eq!(handle_player_bullet_vs_enemy_bullet(&events, &projectiles), vec![50, 52]);
}
