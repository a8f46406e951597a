use shoot::collision::{CollisionEvent, CollisionLayer};
use shoot::geometry::Vec2D;
use shoot::player::{
    clamp_to_window, collect, player_collision_handler, player_touch_movement, power_up_kind, take_hit,
    update_invincibility, DragState, Player, PowerUp, PowerUpType, PowerUpUnit,
};
use shoot::states::{GameConfig, GameData};

fn event(other: u64, layer: CollisionLayer) -> CollisionEvent {
    CollisionEvent { entity_a: 1, entity_b: other, layer_a: CollisionLayer::Player, layer_b: layer }
}

#[test]
fn the_shield_takes_the_hit_before_the_lives() {
    let mut game = GameData::new();
    game.shield = 1;
    let mut player = Player::default();
    assert_eq!(player, Player { speed: 300_000, invincible: false, invincible_timer: 0 });
    take_hit(&mut player, &mut game);
    assert_eq!((game.shield, game.lives, player.invincible), (0, 3, false));
    take_hit(&mut player, &mut game);
    assert_eq!((game.shield, game.lives), (0, 2));
    assert_eq!((player.invincible, player.invincible_timer), (true, 2_000_000));
    game.lives = 0;
    let mut other = Player::default();
    take_hit(&mut other, &mut game);
    assert_eq!((game.lives, other.invincible), (0, false));
}

#[test]
fn power_ups_give_what_they_are() {
    let mut game = GameData::new();
    collect(&mut game, Some(PowerUpType::Coin));
    collect(&mut game, None);
    assert_eq!(game.coins, 2);
    collect(&mut game, Some(PowerUpType::Shield));
    assert_eq!(game.shield, 1);
    collect(&mut game, Some(PowerUpType::ExtraLife));
    assert_eq!(game.lives, 4);
    assert!(!game.upgrading);
    collect(&mut game, Some(PowerUpType::WeaponUpgrade));
    assert!(game.upgrading);
    game.shield = game.max_shield;
    game.lives = game.max_lives;
    collect(&mut game, Some(PowerUpType::Shield));
    collect(&mut game, Some(PowerUpType::ExtraLife));
    assert_eq!((game.shield, game.lives), (3, 5));
}

#[test]
fn a_frame_of_collisions() {
    let mut game = GameData::new();
    game.shield = 1;
    let mut player = Player::default();
    let power_ups = vec![
        PowerUpUnit { entity: 30, power_up: PowerUp { power_type: PowerUpType::ExtraLife } },
        PowerUpUnit { entity: 31, power_up: PowerUp { power_type: PowerUpType::WeaponUpgrade } },
    ];
    assert_eq!(power_up_kind(&power_ups, 31), Some(PowerUpType::WeaponUpgrade));
    assert_eq!(power_up_kind(&power_ups, 32), None);
    let events = vec![
        // someone else on the player layer, such as the shield's own collider
        CollisionEvent {
            entity_a: 2,
            entity_b: 20,
            layer_a: CollisionLayer::Player,
            layer_b: CollisionLayer::EnemyBullet,
        },
        event(20, CollisionLayer::EnemyBullet),
        // the same bullet again: it is gone
        event(20, CollisionLayer::EnemyBullet),
        event(30, CollisionLayer::PowerUp),
        event(30, CollisionLayer::PowerUp),
        CollisionEvent {
            entity_a: 40,
            entity_b: 1,
            layer_a: CollisionLayer::Enemy,
            layer_b: CollisionLayer::Player,
        },
        // invincible by now
        event(21, CollisionLayer::EnemyBullet),
        event(31, CollisionLayer::PowerUp),
    ];
    let report = player_collision_handler(&events, &mut game, 1, &mut player, &power_ups);
    assert_eq!(report.despawned, vec![20, 30]);
    assert!(!report.game_over);
    assert_eq!((game.shield, game.lives, game.coins), (0, 3, 0));
    assert!(player.invincible);
    assert!(!game.upgrading);
}

#[test]
fn the_last_life_ends_the_game() {
    let mut game = GameData::new();
    game.lives = 1;
    let mut player = Player::default();
    let report =
        player_collision_handler(&vec![event(40, CollisionLayer::Enemy)], &mut game, 1, &mut player, &vec![]);
    assert!(report.game_over);
    assert_eq!(game.lives, 0);
    assert!(report.despawned.is_empty());
    // something unknown on the power-up layer counts as a coin
    let mut game = GameData::new();
    let mut player = Player::default();
    let report =
        player_collision_handler(&vec![event(50, CollisionLayer::PowerUp)], &mut game, 1, &mut player, &vec![]);
    assert_eq!(game.coins, 1);
    assert_eq!(report.despawned, vec![50]);
}

#[test]
fn invincibility_runs_out_and_the_ship_blinks() {
    let mut player = Player { speed: 1, invincible: true, invincible_timer: 2_000_000 };
    // 1.95 s and 1.90 s: hidden; 1.85 s and 1.80 s: shown
    assert!(!update_invincibility(&mut player, 50_000));
    assert_eq!(player.invincible_timer, 1_950_000);
    assert!(!update_invincibility(&mut player, 50_000));
    assert!(update_invincibility(&mut player, 50_000));
    assert!(update_invincibility(&mut player, 50_000));
    assert_eq!(player.invincible_timer, 1_800_000);
    assert!(update_invincibility(&mut player, 1_800_000));
    assert!(!player.invincible);
    assert!(update_invincibility(&mut player, 1_000));
    assert_eq!(player.invincible_timer, 0);
}

#[test]
fn the_ship_stays_in_the_window() {
    let config = GameConfig::default();
    assert_eq!(clamp_to_window(&config, Vec2D::new(0, 0)), Vec2D::new(0, 0));
    assert_eq!(clamp_to_window(&config, Vec2D::new(999_999, -999_999)), Vec2D::new(210_000, -330_000));
    assert_eq!(clamp_to_window(&config, Vec2D::new(i32::MIN, i32::MAX)), Vec2D::new(-210_000, 330_000));
    assert_eq!(player_touch_movement(&config, Vec2D::new(10, 20), Vec2D::new(5, -7)), Vec2D::new(15, 13));
    assert_eq!(
        player_touch_movement(&config, Vec2D::new(i32::MAX, 0), Vec2D::new(i32::MAX, 400_000)),
        Vec2D::new(210_000, 330_000)
    );
}

#[test]
fn the_pointer_drags_the_ship() {
    let mut state = DragState::default();
    assert_eq!(state, DragState { dragging: false, last_position: None });
    // the first touch moves nothing
    assert_eq!(state.update(Some(Vec2D::new(100, 100))), Vec2D::zero());
    assert!(state.dragging);
    // right and down on the screen is right and down in the world
    assert_eq!(state.update(Some(Vec2D::new(130, 150))), Vec2D::new(30, -50));
    assert_eq!(state.last_position, Some(Vec2D::new(130, 150)));
    assert_eq!(state.update(None), Vec2D::zero());
    assert_eq!(state, DragState::default());
    assert_eq!(state.update(Some(Vec2D::new(5, 5))), Vec2D::zero());
    assert_eq!(state.update(Some(Vec2D::new(i32::MIN, i32::MAX))), Vec2D::new(i32::MIN, 5 - i32::MAX));
}
