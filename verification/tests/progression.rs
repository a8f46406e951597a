use shoot::progression::{
    apply_upgrade, cap_upgrade_cost, check_level_up, get_upgrade_options, handle_command, handle_unpause_input,
    pick_offers, simulation_runs, start_run, start_upgrade_cost, transition_to_menu, Command, PermanentUpgrade,
    SaveData, UpgradeChoice,
};
use shoot::states::{GameData, GameState};
use shoot::weapons::{WeaponInventory, WeaponType};

fn weapon(kind: WeaponType, is_new: bool) -> UpgradeChoice {
    UpgradeChoice::Weapon { weapon_type: kind, is_new }
}

fn maxed() -> WeaponInventory {
    let mut inventory = WeaponInventory::new();
    for kind in [WeaponType::Shotgun, WeaponType::Rocket, WeaponType::Laser, WeaponType::Homing, WeaponType::Beam] {
        for _ in 0..5 {
            inventory.add_or_upgrade(kind);
        }
    }
    inventory
}

#[test]
fn options_list_held_weapons_then_new_ones() {
    let game = GameData::new();
    let mut inventory = WeaponInventory::new();
    inventory.add_or_upgrade(WeaponType::Laser);
    assert_eq!(
        get_upgrade_options(&game, &inventory),
        vec![
            weapon(WeaponType::Laser, false),
            weapon(WeaponType::Shotgun, true),
            weapon(WeaponType::Rocket, true),
            weapon(WeaponType::Homing, true),
            weapon(WeaponType::Lightning, true),
            weapon(WeaponType::Aura, true),
            weapon(WeaponType::Beam, true),
        ]
    );
}

#[test]
fn with_every_weapon_maxed_only_lives_and_shield_are_left() {
    let inventory = maxed();
    let mut game = GameData::new();
    assert_eq!(
        get_upgrade_options(&game, &inventory),
        vec![UpgradeChoice::RestoreLives, UpgradeChoice::RestoreShield]
    );
    game.lives = game.max_lives;
    assert_eq!(get_upgrade_options(&game, &inventory), vec![UpgradeChoice::RestoreShield]);
    game.shield = game.max_shield;
    assert_eq!(
        get_upgrade_options(&game, &inventory),
        vec![UpgradeChoice::RestoreLives, UpgradeChoice::RestoreShield]
    );
    game.lives = 0;
    assert_eq!(get_upgrade_options(&game, &inventory), vec![UpgradeChoice::RestoreLives]);
}

#[test]
fn at_most_three_offers_are_shown() {
    let all = vec![
        UpgradeChoice::RestoreLives,
        weapon(WeaponType::Aura, true),
        UpgradeChoice::RestoreShield,
        weapon(WeaponType::Beam, false),
    ];
    assert_eq!(pick_offers(all.clone()), all[..3].to_vec());
    assert_eq!(pick_offers(all[..2].to_vec()), all[..2].to_vec());
    assert_eq!(pick_offers(vec![]), vec![]);
}

#[test]
fn drawn_offers_are_distinct_options() {
    let mut inventory = WeaponInventory::new();
    inventory.add_or_upgrade(WeaponType::Laser);
    let mut first_seen = std::collections::HashSet::new();
    for _ in 0..200 {
        let mut game = GameData::new();
        game.upgrading = true;
        let options = get_upgrade_options(&game, &inventory);
        let offers = check_level_up(&mut game, &inventory);
        assert_eq!(offers.len(), 3);
        assert!(game.upgrading);
        for (i, offer) in offers.iter().enumerate() {
            assert!(options.contains(offer));
            assert!(!offers[..i].contains(offer));
        }
        first_seen.insert(format!("{:?}", offers[0]));
    }
    // the order is drawn: over many draws more than one option leads
    assert!(first_seen.len() > 1);
    let mut idle = GameData::new();
    assert!(check_level_up(&mut idle, &inventory).is_empty());
    assert_eq!(idle, GameData::new());
}

#[test]
fn a_choice_is_applied_and_the_game_goes_on() {
    let mut game = GameData::new();
    game.upgrading = true;
    let mut inventory = WeaponInventory::new();
    apply_upgrade(weapon(WeaponType::Rocket, true), &mut game, &mut inventory);
    assert!(!game.upgrading);
    assert_eq!(inventory.get_weapon(WeaponType::Rocket).map(|w| w.level), Some(1));
    assert!(!inventory.has_default_bullet);
    game.upgrading = true;
    apply_upgrade(UpgradeChoice::RestoreLives, &mut game, &mut inventory);
    assert_eq!((game.lives, game.upgrading), (4, false));
    apply_upgrade(UpgradeChoice::RestoreShield, &mut game, &mut inventory);
    assert_eq!(game.shield, 2);
    apply_upgrade(UpgradeChoice::RestoreShield, &mut game, &mut inventory);
    assert_eq!(game.shield, 3);
}

#[test]
fn permanent_upgrades_have_their_prices() {
    assert_eq!(start_upgrade_cost(0), Some(30));
    assert_eq!(start_upgrade_cost(1), Some(100));
    assert_eq!(start_upgrade_cost(2), None);
    assert_eq!(start_upgrade_cost(200), None);
    assert_eq!(cap_upgrade_cost(0), Some(50));
    assert_eq!(cap_upgrade_cost(1), None);
}

#[test]
fn upgrades_are_bought_with_coins_up_to_their_cap() {
    let mut save = SaveData::default();
    save.total_coins = 29;
    assert!(!save.purchase(PermanentUpgrade::Hull));
    assert_eq!(save.total_coins, 29);
    save.total_coins = 200;
    assert!(save.purchase(PermanentUpgrade::Hull));
    assert_eq!((save.total_coins, save.hull_upgrade_level), (170, 1));
    assert!(save.purchase(PermanentUpgrade::Hull));
    assert_eq!((save.total_coins, save.hull_upgrade_level), (70, 2));
    assert!(!save.purchase(PermanentUpgrade::Hull));
    assert!(save.purchase(PermanentUpgrade::MaxShield));
    assert_eq!((save.total_coins, save.max_shield_upgrade_level), (20, 1));
    assert!(!save.purchase(PermanentUpgrade::MaxShield));
    assert!(!save.purchase(PermanentUpgrade::Shield));
    assert!(!save.purchase(PermanentUpgrade::MaxLives));
    assert_eq!((save.shield_upgrade_level, save.max_lives_upgrade_level), (0, 0));
}

#[test]
fn a_run_starts_with_the_upgrades_applied() {
    let mut save = SaveData::default();
    save.hull_upgrade_level = 2;
    save.shield_upgrade_level = 1;
    let mut game = GameData::new();
    game.add_score(777);
    game.lives = 1;
    start_run(&mut game, &save);
    assert_eq!((game.lives, game.max_lives, game.shield, game.max_shield), (3, 7, 0, 6));
    assert_eq!((game.score, game.high_score, game.player_level), (0, 777, 1));
}

#[test]
fn a_run_leaves_its_coins_and_its_score() {
    let mut save = SaveData::default();
    save.high_score = 500;
    save.total_coins = 10;
    let mut game = GameData::new();
    game.coins = 4;
    game.score = 300;
    save.settle(&game);
    assert_eq!((save.total_coins, save.high_score), (14, 500));
    game.score = 900;
    save.settle(&game);
    assert_eq!((save.total_coins, save.high_score), (18, 900));
    save.reward_sponsor();
    assert_eq!(save.total_coins, 118);
    assert!(save.has_purchased);
}

#[test]
fn commands_move_the_program_from_phase_to_phase() {
    assert_eq!(handle_command(GameState::Menu, Command::Start), GameState::Playing);
    assert_eq!(handle_command(GameState::Menu, Command::Space), GameState::Playing);
    assert_eq!(handle_command(GameState::Menu, Command::Recharge), GameState::Recharge);
    assert_eq!(handle_command(GameState::Playing, Command::Escape), GameState::Paused);
    assert_eq!(handle_command(GameState::Playing, Command::Space), GameState::Playing);
    assert_eq!(handle_command(GameState::Paused, Command::Escape), GameState::Playing);
    assert_eq!(handle_command(GameState::Paused, Command::Space), GameState::Playing);
    assert_eq!(handle_command(GameState::Paused, Command::Menu), GameState::Menu);
    assert_eq!(handle_command(GameState::GameOver, Command::Start), GameState::Playing);
    assert_eq!(handle_command(GameState::GameOver, Command::Escape), GameState::GameOver);
    assert_eq!(handle_command(GameState::Recharge, Command::Menu), GameState::Menu);
    assert_eq!(handle_command(GameState::Loading, Command::Start), GameState::Loading);
    assert_eq!(handle_unpause_input(false, false), None);
    assert_eq!(handle_unpause_input(true, false), Some(GameState::Playing));
    assert_eq!(handle_unpause_input(false, true), Some(GameState::Playing));
}

#[test]
fn loading_takes_half_a_second() {
    let mut elapsed = 0;
    assert_eq!(transition_to_menu(&mut elapsed, 500_000), None);
    assert_eq!(transition_to_menu(&mut elapsed, 1), Some(GameState::Menu));
    assert_eq!(elapsed, 500_001);
}

#[test]
fn the_simulation_stands_still_during_an_upgrade() {
    let mut game = GameData::new();
    assert!(simulation_runs(GameState::Playing, &game));
    assert!(!simulation_runs(GameState::Paused, &game));
    game.upgrading = true;
    assert!(!simulation_runs(GameState::Playing, &game));
}
