use shoot::blueprints::Blueprint;
use shoot::collision::{CollisionLayer, CollisionMask, Hitbox};
use shoot::enemy::{
    apply_direct_damage, build_enemy, choose_enemy_type, difficulty_for_level, drops_coin, elite_chance_permille,
    health_for, hexagon_chance_percent, leaves_coin, plan_wave, roll_spawn, roll_type, score_for,
    shoot_interval_for, spawn_enemies, spawn_enemy, spawn_enemy_with_difficulty, spawn_interval_for,
    type_odds_for, Enemy, EnemyMovement, EnemySpawnTimer, EnemyType, Odds, SpawnRolls, TypeOdds, TypeRolls,
    WaveRolls, COIN_CHANCE,
};
use shoot::geometry::Vec2D;
use shoot::states::{GameConfig, GameData};

fn rolls(pattern: u32) -> SpawnRolls {
    SpawnRolls { alternate: false, pattern, speed_permille: 900, amplitude: 60_000, frequency: 100_000, shoot_timer: 7 }
}

fn types(elite: bool, pick: u32, diamond: bool, hexagon: bool) -> TypeRolls {
    TypeRolls { small: false, elite, elite_pick: pick, diamond, hexagon }
}

#[test]
fn difficulty_grows_by_thirty_percent_a_level() {
    assert_eq!(difficulty_for_level(1), 100);
    assert_eq!(difficulty_for_level(7), 280);
    assert_eq!(difficulty_for_level(0), 70);
    assert_eq!(difficulty_for_level(u32::MAX), 70 + 30 * (u32::MAX as u64));
}

#[test]
fn a_diamond_at_level_seven() {
    let d = difficulty_for_level(7);
    assert_eq!(health_for(EnemyType::Diamond, d), 6);
    assert_eq!(score_for(EnemyType::Diamond, d), 280);
    // 2 s / 2.8, rounded down to the microsecond
    assert_eq!(shoot_interval_for(EnemyType::Diamond, d), 714_285);
}

#[test]
fn scaling_rounds_health_up_and_score_down() {
    assert_eq!(health_for(EnemyType::Small, 130), 2);
    assert_eq!(health_for(EnemyType::Hexagon, 130), 7);
    assert_eq!(health_for(EnemyType::EliteGuard, 100), 18);
    assert_eq!(score_for(EnemyType::Small, 130), 65);
    assert_eq!(score_for(EnemyType::Small, 131), 65);
    assert_eq!(score_for(EnemyType::EliteGuard, 1_000_000_000_000), u32::MAX);
    assert_eq!(health_for(EnemyType::EliteGuard, 1_000_000_000_000), i32::MAX);
    assert_eq!(health_for(EnemyType::Diamond, 0), 0);
}

#[test]
fn shooting_interval_has_a_floor_of_half_a_second() {
    assert_eq!(shoot_interval_for(EnemyType::Hexagon, 100), 1_500_000);
    assert_eq!(shoot_interval_for(EnemyType::Hexagon, 300), 500_000);
    assert_eq!(shoot_interval_for(EnemyType::Hexagon, 301), 500_000);
    assert_eq!(shoot_interval_for(EnemyType::EliteGuard, 400), 900_000);
    assert_eq!(shoot_interval_for(EnemyType::Small, 0), u32::MAX);
}

#[test]
fn built_enemy_follows_the_draws() {
    let config = GameConfig::default();
    let spot = Vec2D::new(1, 2);
    let spawn = build_enemy(&config, spot, EnemyType::Diamond, 280, rolls(0));
    assert_eq!(spawn.position, spot);
    assert_eq!(spawn.blueprint, Blueprint::RaidenEnemyDroneSmall);
    assert_eq!(
        spawn.hitbox,
        Hitbox { radius: 14_000, layer: CollisionLayer::Enemy, mask: CollisionMask::enemy_mask() }
    );
    assert_eq!(
        spawn.enemy,
        Enemy {
            health: 6,
            max_health: 6,
            score_value: 280,
            enemy_type: EnemyType::Diamond,
            shoot_timer: 7,
            shoot_interval: 714_285,
        }
    );
    // 150 px/s * 0.9 * (1 + 1.8 / 2)
    assert_eq!(spawn.movement, EnemyMovement::Straight { speed: 256_500 });
    let swaying = build_enemy(&config, spot, EnemyType::Diamond, 280, rolls(1));
    assert_eq!(
        swaying.movement,
        EnemyMovement::Sine { speed: 228_000, amplitude: 60_000, frequency: 100_000, time: 0 }
    );
    let plain = build_enemy(&config, spot, EnemyType::Diamond, 280, rolls(2));
    assert_eq!(plain.movement, EnemyMovement::Straight { speed: 285_000 });
    // elites move at a fifth of that
    let elite = build_enemy(&config, spot, EnemyType::EliteScout, 280, rolls(2));
    assert_eq!(elite.movement, EnemyMovement::Straight { speed: 57_000 });
    assert_eq!(elite.blueprint, Blueprint::EliteScout);
    assert_eq!(elite.hitbox.radius, 26_000);
    assert_eq!(elite.hitbox.collider().layer, CollisionLayer::Enemy);
    let mut other = rolls(2);
    other.alternate = true;
    assert_eq!(build_enemy(&config, spot, EnemyType::Diamond, 100, other).blueprint, Blueprint::DefaultEnemy);
    assert_eq!(build_enemy(&config, spot, EnemyType::Hexagon, 100, other).blueprint, Blueprint::HexagonEnemy);
    assert_eq!(build_enemy(&config, spot, EnemyType::Hexagon, 100, rolls(2)).blueprint, Blueprint::RaidenEnemyTank);
}

#[test]
fn drawn_enemies_keep_their_scaling() {
    let config = GameConfig::default();
    for _ in 0..200 {
        let spawn = spawn_enemy_with_difficulty(&config, Vec2D::new(5, 6), EnemyType::Hexagon, 130);
        assert_eq!(spawn.position, Vec2D::new(5, 6));
        assert_eq!(spawn.enemy.health, 7);
        assert_eq!(spawn.enemy.max_health, 7);
        assert_eq!(spawn.enemy.score_value, 390);
        assert_eq!(spawn.enemy.shoot_interval, 1_153_846);
        assert!(spawn.enemy.shoot_timer >= 0 && spawn.enemy.shoot_timer < 1_153_846);
        assert!(spawn.blueprint == Blueprint::HexagonEnemy || spawn.blueprint == Blueprint::RaidenEnemyTank);
        assert_eq!(spawn.hitbox.radius, spawn.blueprint.collision_radius());
        assert_eq!(spawn.hitbox.layer, CollisionLayer::Enemy);
        assert_eq!(spawn.hitbox.mask, CollisionMask::enemy_mask());
        match spawn.movement {
            EnemyMovement::Straight { speed } => assert!((138_000..207_000).contains(&speed)),
            EnemyMovement::Sine { speed, amplitude, frequency, time } => {
                assert_eq!(speed, 138_000);
                assert!((50_000..150_000).contains(&amplitude));
                assert!((57_296..171_887).contains(&frequency));
                assert_eq!(time, 0);
            }
            other => panic!("unexpected movement {:?}", other),
        }
    }
    let plain = spawn_enemy(&config, Vec2D::zero(), EnemyType::Small);
    assert_eq!((plain.enemy.health, plain.enemy.score_value, plain.enemy.shoot_interval), (1, 50, 2_600_000));
}

#[test]
fn draws_stay_in_their_ranges() {
    for _ in 0..200 {
        let rolls = roll_spawn(EnemyType::Small, 10);
        assert!(!rolls.alternate);
        assert!(rolls.pattern < 3);
        assert!((800..1200).contains(&rolls.speed_permille));
        assert!(rolls.shoot_timer < 10);
    }
}

#[test]
fn draws_vary() {
    let mut speeds = std::collections::HashSet::new();
    let mut timers = std::collections::HashSet::new();
    let mut patterns = std::collections::HashSet::new();
    for _ in 0..200 {
        let rolls = roll_spawn(EnemyType::Small, 1_000_000);
        speeds.insert(rolls.speed_permille);
        timers.insert(rolls.shoot_timer);
        patterns.insert(rolls.pattern);
    }
    assert!(speeds.len() > 10);
    assert!(timers.len() > 10);
    assert_eq!(patterns.len(), 3);
}

#[test]
fn chances_rise_with_the_level_up_to_their_caps() {
    assert_eq!(elite_chance_permille(0), 20);
    assert_eq!(elite_chance_permille(3), 29);
    assert_eq!(elite_chance_permille(20), 80);
    assert_eq!(elite_chance_permille(1000), 80);
    assert_eq!(hexagon_chance_percent(1), 22);
    assert_eq!(hexagon_chance_percent(15), 50);
    assert_eq!(hexagon_chance_percent(u32::MAX), 50);
}

#[test]
fn the_kind_follows_the_draws() {
    let small = TypeRolls { small: true, elite: true, elite_pick: 1, diamond: true, hexagon: true };
    assert_eq!(choose_enemy_type(9, true, small), EnemyType::Small);
    assert_eq!(choose_enemy_type(9, true, types(true, 0, true, true)), EnemyType::Diamond);
    assert_eq!(choose_enemy_type(3, false, types(true, 0, true, true)), EnemyType::EliteScout);
    assert_eq!(choose_enemy_type(3, false, types(true, 1, true, true)), EnemyType::EliteGunship);
    assert_eq!(choose_enemy_type(3, false, types(true, 2, true, true)), EnemyType::EliteGuard);
    // below level 3 the elite draw is ignored
    assert_eq!(choose_enemy_type(2, false, types(true, 2, true, true)), EnemyType::Diamond);
    assert_eq!(choose_enemy_type(2, false, types(false, 0, false, true)), EnemyType::Hexagon);
    assert_eq!(choose_enemy_type(2, false, types(false, 0, false, false)), EnemyType::Small);
}

#[test]
fn no_elites_during_a_boss_fight_or_below_level_three() {
    for _ in 0..500 {
        let kind = choose_enemy_type(30, true, roll_type(30, true));
        assert!(kind == EnemyType::Small || kind == EnemyType::Diamond);
        assert!(!choose_enemy_type(2, false, roll_type(2, false)).is_elite());
        assert!(roll_type(30, false).elite_pick < 3);
    }
}

#[test]
fn the_spawn_interval_shrinks_with_the_level_and_doubles_for_bosses() {
    let config = GameConfig::default();
    assert_eq!(spawn_interval_for(&config, 1, false), 1_500_000);
    assert_eq!(spawn_interval_for(&config, 7, false), 535_714);
    assert_eq!(spawn_interval_for(&config, 7, true), 1_071_428);
    assert_eq!(spawn_interval_for(&config, 50, false), 300_000);
    assert_eq!(spawn_interval_for(&config, 50, true), 600_000);
}

#[test]
fn the_director_waits_for_its_interval() {
    let config = GameConfig::default();
    let mut timer = EnemySpawnTimer::default();
    assert_eq!(timer, EnemySpawnTimer { timer: 0, interval: 1_500_000, difficulty: 100 });
    assert!(spawn_enemies(&mut timer, &config, 1, false, 1_000_000).is_empty());
    assert_eq!(timer.timer, 1_000_000);
    let wave = spawn_enemies(&mut timer, &config, 1, false, 500_000);
    assert_eq!(wave.len(), 1);
    assert_eq!(timer.timer, 0);
    assert_eq!(wave[0].position.y, 410_000);
    assert!((-190_000..190_000).contains(&wave[0].position.x));
    assert!(!wave[0].enemy.enemy_type.is_elite());
    assert!(!timer.tick(&config, 1, true, 2_999_999));
    assert_eq!(timer.interval, 3_000_000);
    assert!(timer.tick(&config, 1, true, 1));
}

#[test]
fn waves_grow_at_high_levels_but_not_during_boss_fights() {
    let config = GameConfig::default();
    let mut sizes = [0usize; 4];
    for _ in 0..400 {
        let mut timer = EnemySpawnTimer::default();
        let wave = spawn_enemies(&mut timer, &config, 12, false, 5_000_000);
        assert!((1..=3).contains(&wave.len()));
        sizes[wave.len()] += 1;
        for spawn in wave.iter().skip(1) {
            assert!(spawn.enemy.enemy_type == EnemyType::Diamond || spawn.enemy.enemy_type == EnemyType::Small);
            assert!(spawn.position.y == 460_000 || spawn.position.y == 510_000);
        }
        let mut timer = EnemySpawnTimer::default();
        assert_eq!(spawn_enemies(&mut timer, &config, 12, true, 5_000_000).len(), 1);
        let mut timer = EnemySpawnTimer::default();
        assert_eq!(spawn_enemies(&mut timer, &config, 4, false, 5_000_000).len(), 1);
    }
    assert!(sizes[1] > 0 && sizes[2] > 0);
}

#[test]
fn planned_wave_places_the_followers_behind() {
    let config = GameConfig::default();
    let shape = rolls(2);
    let wave = WaveRolls {
        kind: types(false, 0, false, true),
        first_x: -5,
        first: shape,
        second: true,
        second_x: 6,
        second_shape: shape,
        third: true,
        third_x: 7,
        third_shape: shape,
    };
    let spawns = plan_wave(&config, 10, false, wave);
    let seen: Vec<(EnemyType, Vec2D)> = spawns.iter().map(|s| (s.enemy.enemy_type, s.position)).collect();
    assert_eq!(
        seen,
        vec![
            (EnemyType::Hexagon, Vec2D::new(-5, 410_000)),
            (EnemyType::Diamond, Vec2D::new(6, 460_000)),
            (EnemyType::Small, Vec2D::new(7, 510_000)),
        ]
    );
    assert_eq!(plan_wave(&config, 9, false, wave).len(), 2);
    assert_eq!(plan_wave(&config, 4, false, wave).len(), 1);
    assert_eq!(plan_wave(&config, 10, true, wave).len(), 1);
}

fn enemy(health: i32, score_value: u32) -> Enemy {
    Enemy {
        health,
        max_health: health,
        score_value,
        enemy_type: EnemyType::Diamond,
        shoot_timer: 0,
        shoot_interval: 2_000_000,
    }
}

#[test]
fn damage_that_leaves_health_awards_nothing() {
    let mut game = GameData::new();
    let mut target = enemy(5, 100);
    assert!(!apply_direct_damage(&mut game, false, &mut target, 4));
    assert_eq!(target.health, 1);
    assert_eq!(game, GameData::new());
}

#[test]
fn a_kill_awards_score_and_experience() {
    let mut game = GameData::new();
    let mut target = enemy(2, 1400);
    assert!(apply_direct_damage(&mut game, false, &mut target, 2));
    assert_eq!(target.health, 0);
    assert_eq!((game.score, game.high_score, game.experience, game.player_level), (1400, 1400, 100, 2));
    assert!(game.upgrading);
}

#[test]
fn a_kill_during_a_boss_fight_awards_score_only() {
    let mut game = GameData::new();
    game.experience = 1299;
    let mut target = enemy(2, 1400);
    assert!(apply_direct_damage(&mut game, true, &mut target, 5));
    assert_eq!(target.health, -3);
    assert_eq!((game.score, game.high_score), (1400, 1400));
    assert_eq!((game.experience, game.player_level, game.upgrading), (1299, 1, false));
}

#[test]
fn coins_drop_only_from_kills() {
    let mut dropped = 0;
    for _ in 0..5000 {
        assert!(!drops_coin(false));
        if drops_coin(true) {
            dropped += 1;
        }
    }
    assert!(dropped > 0 && dropped < 1000);
}

#[test]
fn the_chances_of_the_kinds() {
    assert_eq!(
        type_odds_for(1),
        TypeOdds {
            small: Odds { hits: 70, of: 100 },
            elite: Odds { hits: 23, of: 1000 },
            diamond: Odds { hits: 63, of: 100 },
            hexagon: Odds { hits: 22, of: 37 },
        }
    );
    assert_eq!(
        type_odds_for(7),
        TypeOdds {
            small: Odds { hits: 70, of: 100 },
            elite: Odds { hits: 41, of: 1000 },
            diamond: Odds { hits: 51, of: 100 },
            hexagon: Odds { hits: 34, of: 49 },
        }
    );
    let capped = type_odds_for(u32::MAX);
    assert_eq!(capped.elite, Odds { hits: 80, of: 1000 });
    assert_eq!(capped.diamond, Odds { hits: 35, of: 100 });
    assert_eq!(capped.hexagon, Odds { hits: 50, of: 65 });
}

#[test]
fn a_coin_needs_a_kill_and_the_draw() {
    assert_eq!(COIN_CHANCE, 2);
    for killed in [false, true] {
        for roll in [false, true] {
            assert_eq!(leaves_coin(killed, roll), killed && roll);
        }
    }
}

#[test]
fn the_kinds_come_about_as_often_as_their_chances_say() {
    // level 7, no boss: 4.1 % elites, then 51 % diamonds, 34 % hexagons, 15 % small
    let mut counts = [0u32; 4];
    let draws = 20_000;
    for _ in 0..draws {
        let kind = choose_enemy_type(7, false, roll_type(7, false));
        let slot = match kind {
            EnemyType::Diamond => 0,
            EnemyType::Hexagon => 1,
            EnemyType::Small => 2,
            _ => 3,
        };
        counts[slot] += 1;
    }
    assert!((8_500..11_000).contains(&counts[0]), "diamonds {}", counts[0]);
    assert!((5_500..7_500).contains(&counts[1]), "hexagons {}", counts[1]);
    assert!((2_200..3_600).contains(&counts[2]), "small {}", counts[2]);
    assert!((400..1_300).contains(&counts[3]), "elites {}", counts[3]);
    // during a boss fight: 70 % small
    let small = (0..draws).filter(|_| choose_enemy_type(7, true, roll_type(7, true)) == EnemyType::Small).count();
    assert!((13_000..15_000).contains(&small), "small {}", small);
}
