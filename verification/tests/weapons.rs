use shoot::weapons::{Weapon, WeaponInventory, WeaponType};

#[test]
fn weapon_tables() {
    let all = WeaponType::all();
    assert_eq!(
        all,
        vec![
            WeaponType::Shotgun,
            WeaponType::Rocket,
            WeaponType::Laser,
            WeaponType::Homing,
            WeaponType::Lightning,
            WeaponType::Aura,
            WeaponType::Beam,
        ]
    );
    let codes: Vec<char> = all.iter().map(|w| w.code()).collect();
    assert_eq!(codes, vec!['S', 'R', 'L', 'H', 'B', 'A', 'C']);
    let cooldowns: Vec<u32> = all.iter().map(|w| w.base_cooldown()).collect();
    assert_eq!(cooldowns, vec![150_000, 600_000, 250_000, 150_000, 500_000, 0, 2_000_000]);
    assert_eq!(WeaponType::Shotgun.name(), "霰弹枪");
    assert_eq!(WeaponType::Beam.name(), "光柱");
}

#[test]
fn level_up_shortens_the_cooldown_by_a_tenth_each() {
    let mut weapon = Weapon::new(WeaponType::Rocket);
    assert_eq!((weapon.level, weapon.cooldown, weapon.timer), (1, 600_000, 0));
    assert!(!weapon.is_max_level());
    let mut seen = vec![];
    for _ in 0..6 {
        weapon.level_up();
        seen.push((weapon.level, weapon.cooldown));
    }
    assert_eq!(seen, vec![(2, 540_000), (3, 480_000), (4, 420_000), (5, 360_000), (5, 360_000), (5, 360_000)]);
    assert!(weapon.is_max_level());
}

#[test]
fn a_new_inventory_fires_the_plain_bullet() {
    let inventory = WeaponInventory::new();
    assert!(inventory.has_default_bullet);
    assert_eq!(inventory.weapon_count(), 0);
    assert!(!inventory.is_full());
    assert!(!inventory.all_weapons_maxed());
    assert!(inventory.get_weapon(WeaponType::Laser).is_none());
    assert!(!WeaponInventory::default().has_default_bullet);
}

#[test]
fn the_aura_keeps_the_plain_bullet_and_any_other_weapon_retires_it() {
    let mut inventory = WeaponInventory::new();
    inventory.add_or_upgrade(WeaponType::Aura);
    assert!(inventory.has_default_bullet);
    inventory.add_or_upgrade(WeaponType::Shotgun);
    assert!(!inventory.has_default_bullet);
    inventory.add_or_upgrade(WeaponType::Aura);
    assert!(!inventory.has_default_bullet);
    assert_eq!(inventory.weapon_count(), 2);
    assert_eq!(inventory.get_weapon(WeaponType::Aura).map(|w| w.level), Some(2));
    assert_eq!(inventory.get_weapon(WeaponType::Shotgun).map(|w| w.level), Some(1));
    assert_eq!(inventory.position(WeaponType::Shotgun), Some(1));
}

#[test]
fn a_sixth_kind_is_turned_away() {
    let mut inventory = WeaponInventory::new();
    for kind in [
        WeaponType::Shotgun,
        WeaponType::Rocket,
        WeaponType::Laser,
        WeaponType::Homing,
        WeaponType::Lightning,
    ] {
        inventory.add_or_upgrade(kind);
    }
    assert!(inventory.is_full());
    inventory.add_or_upgrade(WeaponType::Beam);
    assert_eq!(inventory.weapon_count(), 5);
    assert!(inventory.get_weapon(WeaponType::Beam).is_none());
    // a kind that is held still rises
    inventory.add_or_upgrade(WeaponType::Laser);
    assert_eq!(inventory.get_weapon(WeaponType::Laser).map(|w| w.level), Some(2));
}

#[test]
fn upgradeable_lists_held_weapons_then_missing_kinds() {
    let mut inventory = WeaponInventory::new();
    assert_eq!(inventory.get_upgradeable_weapons(), WeaponType::all());
    inventory.add_or_upgrade(WeaponType::Laser);
    inventory.add_or_upgrade(WeaponType::Shotgun);
    for _ in 0..4 {
        inventory.add_or_upgrade(WeaponType::Shotgun);
    }
    assert_eq!(
        inventory.get_upgradeable_weapons(),
        vec![
            WeaponType::Laser,
            WeaponType::Rocket,
            WeaponType::Homing,
            WeaponType::Lightning,
            WeaponType::Aura,
            WeaponType::Beam,
        ]
    );
    for kind in [WeaponType::Rocket, WeaponType::Homing, WeaponType::Beam] {
        inventory.add_or_upgrade(kind);
    }
    assert_eq!(
        inventory.get_upgradeable_weapons(),
        vec![WeaponType::Laser, WeaponType::Rocket, WeaponType::Homing, WeaponType::Beam]
    );
    for kind in [WeaponType::Laser, WeaponType::Rocket, WeaponType::Homing, WeaponType::Beam] {
        for _ in 0..4 {
            inventory.add_or_upgrade(kind);
        }
    }
    assert!(inventory.all_weapons_maxed());
    assert_eq!(inventory.get_upgradeable_weapons(), vec![]);
}
