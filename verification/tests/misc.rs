use shoot::blueprints::Blueprint;
use shoot::boss::{BossState, BossType};
use shoot::collision::{CollisionLayer, CollisionMask, Hitbox};
use shoot::geometry::{CollisionShape, Vec2D};
use shoot::hud::{update_hud, BossBar, WeaponBadge};
use shoot::projectiles::{spawn_boss_hit_flash, BlinkEffect};
use shoot::player::{player_keyboard_movement, spawn_player, Player, PowerUpType};
use shoot::recharge::{
    process_recharge_event, validate_order_id, validate_username, OrderIdError, RechargeField, Submission,
    UsernameError,
};
use shoot::scroll::{
    spawn_background_grid, update_background_scroll, update_scroll, update_scrollable, BackgroundLayer,
    ScrollState, Scrollable,
};
use shoot::shield::{
    shield_rotation, spawn_player_shield, update_player_shield_vfx, update_shield, Shield, ShieldVfx,
};
use shoot::states::{GameConfig, GameData};
use shoot::strikes::{spawn_hit_sparks, spawn_rocket_explosion_particles};
use shoot::weapons::{WeaponInventory, WeaponType};

fn chars(text: &str) -> Vec<char> {
    text.chars().collect()
}

#[test]
fn user_names() {
    assert_eq!(validate_username(&chars("")), Err(UsernameError::Empty));
    assert_eq!(validate_username(&chars(" ab")), Err(UsernameError::Untrimmed));
    assert_eq!(validate_username(&chars("ab\t")), Err(UsernameError::Untrimmed));
    assert_eq!(validate_username(&chars("\u{3000}abc")), Err(UsernameError::Untrimmed));
    assert_eq!(validate_username(&chars(" ")), Err(UsernameError::Untrimmed));
    assert_eq!(validate_username(&chars("ab")), Err(UsernameError::Length));
    assert_eq!(validate_username(&chars("a23456789012345678901")), Err(UsernameError::Length));
    assert_eq!(validate_username(&chars("1ab")), Err(UsernameError::FirstNotLetter));
    assert_eq!(validate_username(&chars("_ab")), Err(UsernameError::FirstNotLetter));
    assert_eq!(validate_username(&chars("émile")), Err(UsernameError::FirstNotLetter));
    assert_eq!(validate_username(&chars("ab-c")), Err(UsernameError::BadCharacter));
    assert_eq!(validate_username(&chars("a b")), Err(UsernameError::BadCharacter));
    assert_eq!(validate_username(&chars("abé")), Err(UsernameError::BadCharacter));
    assert_eq!(validate_username(&chars("abc")), Ok(()));
    assert_eq!(validate_username(&chars("Z_9")), Ok(()));
    assert_eq!(validate_username(&chars("a2345678901234567890")), Ok(()));
    assert_eq!(UsernameError::Empty.message(), "请输入用户名");
    assert_eq!(UsernameError::BadCharacter.message(), "用户名只能包含字母、数字和下划线");
}

#[test]
fn order_numbers() {
    assert_eq!(validate_order_id(&chars("")), Err(OrderIdError::Empty));
    assert_eq!(validate_order_id(&chars("a ")), Err(OrderIdError::Untrimmed));
    assert_eq!(validate_order_id(&chars(&"x".repeat(65))), Err(OrderIdError::TooLong));
    assert_eq!(validate_order_id(&chars("ab.c")), Err(OrderIdError::BadCharacter));
    assert_eq!(validate_order_id(&chars("a b")), Err(OrderIdError::BadCharacter));
    assert_eq!(validate_order_id(&chars(&"x".repeat(64))), Ok(()));
    assert_eq!(validate_order_id(&chars("-")), Ok(()));
    assert_eq!(validate_order_id(&chars("2024-01_AbC")), Ok(()));
    assert_eq!(OrderIdError::TooLong.message(), "订单号过长（最多 64 字符）");
}

#[test]
fn a_form_is_checked_name_first() {
    assert_eq!(process_recharge_event(true, &chars(""), &chars("")), Submission::Busy);
    assert_eq!(
        process_recharge_event(false, &chars("x"), &chars("")),
        Submission::BadUsername(UsernameError::Length)
    );
    assert_eq!(
        process_recharge_event(false, &chars("xyz"), &chars("")),
        Submission::BadOrderId(OrderIdError::Empty)
    );
    assert_eq!(process_recharge_event(false, &chars("xyz"), &chars("77")), Submission::Accepted);
    assert_eq!(RechargeField::default(), RechargeField::Username);
}

#[test]
fn the_world_scrolls() {
    let config = GameConfig::default();
    let mut state = ScrollState::default();
    update_scroll(&mut state, &config, 100_000);
    update_scroll(&mut state, &config, 100_000);
    assert_eq!(state, ScrollState { offset: 10_000, total_distance: 10_000 });
    let scrollable = Scrollable::default();
    assert_eq!(update_scrollable(0, &scrollable, &config, 100_000), -5_000);
    let still = Scrollable { moves_with_scroll: false, speed_multiplier: 1000 };
    assert_eq!(update_scrollable(7, &still, &config, 100_000), 7);
    let fast = Scrollable { moves_with_scroll: true, speed_multiplier: 2500 };
    assert_eq!(update_scrollable(0, &fast, &config, 100_000), -12_500);
    let layer = BackgroundLayer { parallax_factor: 300, layer: -1 };
    assert_eq!(update_background_scroll(0, &layer, &config, 100_000), -1_500);
    assert_eq!(update_background_scroll(-720_000, &layer, &config, 100_000), 718_500);
    assert_eq!(update_background_scroll(-718_500, &layer, &config, 100_000), -720_000);
}

#[test]
fn the_background_grid() {
    let grid = spawn_background_grid(&GameConfig::default());
    assert_eq!(grid.horizontal.len(), 87);
    assert_eq!(grid.vertical.len(), 19);
    assert_eq!((grid.horizontal[0], grid.horizontal[43], grid.horizontal[86]), (-2_150_000, 0, 2_150_000));
    assert_eq!((grid.vertical[0], grid.vertical[1], grid.vertical[18]), (-450_000, -400_000, 450_000));
}

#[test]
fn the_shield() {
    let mut shield = Shield::default();
    assert_eq!(shield, Shield { health: 3, max_health: 3, rotation_speed: 57_296 });
    assert!(!update_shield(&shield));
    shield.health = 0;
    assert!(update_shield(&shield));
    assert_eq!(shield_rotation(0, &shield, 1_000_000), 57_296);
    assert_eq!(shield_rotation(359_000, &shield, 100_000), 4_729);
    assert_eq!(update_player_shield_vfx(false, 3, true), ShieldVfx::Remove);
    assert_eq!(update_player_shield_vfx(true, 0, true), ShieldVfx::Remove);
    assert_eq!(update_player_shield_vfx(true, 1, true), ShieldVfx::Keep);
    assert_eq!(update_player_shield_vfx(true, 1, false), ShieldVfx::Add);
}

#[test]
fn shards_and_sparks_stay_in_their_ranges() {
    assert_eq!(spawn_rocket_explosion_particles(0, 500_000).len(), 6);
    assert_eq!(spawn_rocket_explosion_particles(1000, 500_000).len(), 48);
    for shard in spawn_rocket_explosion_particles(28, 500_000) {
        assert!((0..360_000).contains(&shard.heading));
        assert!((175_000..=475_000).contains(&shard.speed));
        assert!((3_500..6_500).contains(&shard.size));
        assert!((180_000..420_000).contains(&shard.lifetime));
    }
    for _ in 0..100 {
        let sparks = spawn_hit_sparks();
        assert!((5..=8).contains(&sparks.len()));
        for (i, spark) in sparks.iter().enumerate() {
            assert!((0..360_000).contains(&spark.heading));
            assert!((10_000..16_000).contains(&spark.length));
            assert_eq!(spark.orange, i % 2 == 1);
        }
    }
}

#[test]
fn the_ship_appears_and_moves_under_the_keys() {
    let config = GameConfig::default();
    let spawn = spawn_player(&config);
    let (place, player) = (spawn.position, spawn.player);
    assert_eq!(place, Vec2D::new(0, -240_000));
    assert_eq!(spawn.blueprint, Blueprint::PlayerRaidenMk1);
    assert_eq!(
        spawn.hitbox,
        Hitbox { radius: 18_000, layer: CollisionLayer::Player, mask: CollisionMask::player_mask() }
    );
    assert_eq!(
        PowerUpType::Coin.hitbox(),
        Hitbox { radius: 10_000, layer: CollisionLayer::PowerUp, mask: CollisionMask::default() }
    );
    assert_eq!(PowerUpType::ExtraLife.hitbox().radius, 12_000);
    assert_eq!(player, Player { speed: 300_000, invincible: false, invincible_timer: 0 });
    assert_eq!(player_keyboard_movement(&config, &player, place, 0, 0, 100_000), place);
    assert_eq!(player_keyboard_movement(&config, &player, place, 1, 0, 100_000), Vec2D::new(30_000, -240_000));
    assert_eq!(player_keyboard_movement(&config, &player, place, 0, -1, 100_000), Vec2D::new(0, -270_000));
    // diagonally the speed is shared: 1000 / 1414 of it along each axis
    assert_eq!(player_keyboard_movement(&config, &player, place, -1, 1, 100_000), Vec2D::new(-21_216, -218_784));
    assert_eq!(player_keyboard_movement(&config, &player, place, 1, 0, 10_000_000), Vec2D::new(210_000, -240_000));
    assert_eq!(PowerUpType::Coin.blueprint(), Blueprint::PowerUpCoin);
    assert_eq!(PowerUpType::ExtraLife.blueprint(), Blueprint::PowerUpHeart);
    assert_eq!(PowerUpType::Shield.blueprint(), Blueprint::PowerUpShield);
    assert_eq!(PowerUpType::WeaponUpgrade.blueprint(), Blueprint::PowerUp);
}

#[test]
fn the_display_reads_the_state() {
    let mut game = GameData::new();
    game.add_score(650);
    game.shield = 1;
    game.coins = 3;
    let mut inventory = WeaponInventory::new();
    inventory.add_or_upgrade(WeaponType::Laser);
    inventory.add_or_upgrade(WeaponType::Laser);
    inventory.add_or_upgrade(WeaponType::Aura);
    let mut fight = BossState::default();
    let hud = update_hud(&game, &fight, &inventory);
    assert_eq!((hud.score, hud.player_level, hud.coins), (650, 1, 3));
    assert_eq!((hud.lives, hud.lost_lives, hud.shield, hud.lost_shield), (3, 2, 1, 2));
    assert_eq!((hud.exp_segments, hud.experience, hud.exp_needed), (5, 650, 1300));
    assert_eq!(hud.boss, None);
    assert_eq!(
        hud.weapons,
        vec![
            WeaponBadge { weapon_type: WeaponType::Laser, level: 2 },
            WeaponBadge { weapon_type: WeaponType::Aura, level: 1 },
        ]
    );
    fight.active = true;
    fight.boss_type = Some(BossType::ChaosEye);
    fight.total_health = 0;
    fight.current_health = -5;
    game.lives = 9;
    game.experience = 99_999;
    let hud = update_hud(&game, &fight, &inventory);
    assert_eq!(hud.boss, Some(BossBar { boss_type: Some(BossType::ChaosEye), percent: 0, current: 0, total: 1 }));
    assert_eq!((hud.lost_lives, hud.exp_segments), (0, 10));
    fight.total_health = 2600;
    fight.current_health = 1300;
    assert_eq!(
        update_hud(&game, &fight, &inventory).boss,
        Some(BossBar { boss_type: Some(BossType::ChaosEye), percent: 50, current: 1300, total: 2600 })
    );
}

#[test]
fn the_shield_entity_and_the_hit_flash() {
    let (shield, collider) = spawn_player_shield();
    assert_eq!(shield, Shield::default());
    assert!(matches!(collider.shape, CollisionShape::Circle { radius: 25_000 }));
    assert_eq!(collider.layer, CollisionLayer::Player);
    assert!(collider.mask.can_collide_with(CollisionLayer::EnemyBullet));
    assert!(!collider.mask.can_collide_with(CollisionLayer::PlayerBullet));
    assert_eq!(
        spawn_boss_hit_flash(),
        BlinkEffect { remaining: 750_000, period: 350_000, on_time: 160_000, phase: 0 }
    );
}
