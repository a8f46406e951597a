use shoot::boss::{Boss, BossState, BossType};
use shoot::boss_combat::BossUnit;
use shoot::combat::EnemyUnit;
use shoot::enemy::{Enemy, EnemyType};
use shoot::geometry::Vec2D;
use shoot::lightning::{lightning_chain, nearest_target, ChainTarget};
use shoot::projectiles::LightningCast;
use shoot::states::GameData;
use shoot::strikes::{chain_targets, resolve_lightning_cast};

fn target(entity: u64, x: i32, y: i32) -> ChainTarget {
    ChainTarget { entity, position: Vec2D::new(x, y), is_boss: false, despawned: false }
}

fn cast(jumps: u32, range: u32) -> LightningCast {
    LightningCast { jumps, range, damage: 4 }
}

#[test]
fn the_nearest_in_range_is_found_and_ties_go_to_the_first() {
    let targets = vec![target(1, 10, 0), target(2, 0, 5), target(3, 0, -5), target(4, 3, 4), target(5, 100, 0)];
    let origin = Vec2D::zero();
    assert_eq!(nearest_target(&targets, &vec![], origin, 10), Some(1));
    assert_eq!(nearest_target(&targets, &vec![1], origin, 10), Some(2));
    assert_eq!(nearest_target(&targets, &vec![1, 2, 3], origin, 10), Some(0));
    assert_eq!(nearest_target(&targets, &vec![1, 2, 3, 0], origin, 10), None);
    assert_eq!(nearest_target(&targets, &vec![], origin, 4), None);
    assert_eq!(nearest_target(&targets, &vec![], origin, 5), Some(1));
    assert_eq!(nearest_target(&vec![], &vec![], origin, u32::MAX), None);
}

#[test]
fn the_chain_walks_greedily_from_target_to_target() {
    // a line of targets: from the origin the chain takes the nearest, then walks on
    let targets = vec![target(1, 30, 0), target(2, 10, 0), target(3, 20, 0), target(4, -15, 0), target(5, 200, 0)];
    assert_eq!(lightning_chain(Vec2D::zero(), &cast(8, 12), &targets), vec![1, 2, 0]);
    assert_eq!(lightning_chain(Vec2D::zero(), &cast(2, 12), &targets), vec![1, 2]);
    assert_eq!(lightning_chain(Vec2D::zero(), &cast(0, 12), &targets), vec![]);
    assert_eq!(lightning_chain(Vec2D::zero(), &cast(8, 9), &targets), vec![]);
    // with a longer reach it turns back for the one it left behind
    assert_eq!(lightning_chain(Vec2D::zero(), &cast(8, 45), &targets), vec![1, 2, 0, 3]);
    assert_eq!(lightning_chain(Vec2D::zero(), &cast(8, 214), &targets), vec![1, 2, 0, 3]);
    assert_eq!(lightning_chain(Vec2D::zero(), &cast(8, 215), &targets), vec![1, 2, 0, 3, 4]);
}

#[test]
fn the_chain_passes_by_what_is_gone() {
    let mut targets = vec![target(1, 10, 0), target(2, 20, 0)];
    targets[0].despawned = true;
    assert_eq!(lightning_chain(Vec2D::zero(), &cast(8, 20), &targets), vec![1]);
    assert_eq!(lightning_chain(Vec2D::zero(), &cast(8, 19), &targets), vec![]);
}

fn enemy(entity: u64, x: i32, health: i32) -> EnemyUnit {
    EnemyUnit {
        entity,
        position: Vec2D::new(x, 0),
        despawned: false,
        enemy: Enemy {
            health,
            max_health: health,
            score_value: 100,
            enemy_type: EnemyType::Small,
            shoot_timer: 0,
            shoot_interval: 1,
        },
    }
}

#[test]
fn enemies_are_listed_before_bosses() {
    let enemies = vec![enemy(1, 10, 5)];
    let bosses =
        vec![BossUnit { entity: 9, position: Vec2D::new(-10, 0), despawned: false, boss: Boss::new(BossType::ChaosEye, 50) }];
    let targets = chain_targets(&enemies, &bosses);
    assert_eq!(
        targets,
        vec![
            ChainTarget { entity: 1, position: Vec2D::new(10, 0), is_boss: false, despawned: false },
            ChainTarget { entity: 9, position: Vec2D::new(-10, 0), is_boss: true, despawned: false },
        ]
    );
    // equally near: the enemy is struck first
    assert_eq!(lightning_chain(Vec2D::zero(), &cast(1, 10), &targets), vec![0]);
}

#[test]
fn a_strike_damages_every_target_of_the_chain() {
    let mut game = GameData::new();
    let mut state =
        BossState { active: true, last_boss_level: 10, total_health: 50, current_health: 50, boss_type: None };
    let mut enemies = vec![enemy(1, 10, 4), enemy(2, 20, 9), enemy(3, 500, 1)];
    let mut bosses =
        vec![BossUnit { entity: 9, position: Vec2D::new(30, 0), despawned: false, boss: Boss::new(BossType::ChaosEye, 50) }];
    let report = resolve_lightning_cast(
        Vec2D::zero(),
        &cast(5, 10),
        &mut game,
        true,
        &mut state,
        &mut enemies,
        &mut bosses,
    );
    assert_eq!(
        report.segments,
        vec![
            (Vec2D::zero(), Vec2D::new(10, 0)),
            (Vec2D::new(10, 0), Vec2D::new(20, 0)),
            (Vec2D::new(20, 0), Vec2D::new(30, 0)),
        ]
    );
    assert!(enemies[0].despawned);
    assert_eq!(enemies[1].enemy.health, 5);
    assert_eq!(enemies[2].enemy.health, 1);
    assert_eq!((bosses[0].boss.health, bosses[0].boss.phase), (46, 1));
    assert_eq!(state.current_health, 46);
    // a boss is fought: the enemy is worth score only
    assert_eq!((game.score, game.experience), (100, 0));
    assert!(report.coin_drops.iter().all(|drop| *drop == Vec2D::new(10, 0)));
}
