use shoot::flight::{
    bullet_offscreen, closest_of, steer, update_boss_bullet, update_bullet, update_effect_lifetime,
    update_weapon_bullet, Flight,
};
use shoot::geometry::Vec2D;
use shoot::motion::{advance, advance_coordinate, aim_at, enemy_offscreen, out_of_bounds, scale_to};
use shoot::projectiles::{BossBullet, Bullet, EffectLifetime, HomingMissile, WeaponBullet};
use shoot::states::GameConfig;
use shoot::weapons::WeaponType;

#[test]
fn positions_advance_with_time() {
    assert_eq!(advance_coordinate(0, 500_000, 16_667), 8_333);
    assert_eq!(advance_coordinate(0, -500_000, 16_667), -8_333);
    assert_eq!(advance_coordinate(100, 3, 333_333), 100);
    assert_eq!(advance_coordinate(100, -3, 333_334), 99);
    assert_eq!(advance_coordinate(i32::MAX - 1, 1_000_000, 1_000_000), i32::MAX);
    assert_eq!(advance_coordinate(i32::MIN + 1, -1_000_000, 1_000_000), i32::MIN);
    assert_eq!(advance(Vec2D::new(1, 2), Vec2D::new(1_000_000, -2_000_000), 500_000), Vec2D::new(500_001, -999_998));
}

#[test]
fn the_window_has_a_margin() {
    let config = GameConfig::default();
    assert!(!out_of_bounds(&config, Vec2D::new(290_000, 410_000), 50_000));
    assert!(out_of_bounds(&config, Vec2D::new(290_001, 0), 50_000));
    assert!(out_of_bounds(&config, Vec2D::new(0, -410_001), 50_000));
    assert!(!bullet_offscreen(&config, Vec2D::new(-290_000, -410_000)));
    assert!(bullet_offscreen(&config, Vec2D::new(-290_001, 0)));
    assert!(!enemy_offscreen(&config, Vec2D::new(0, -460_000)));
    assert!(enemy_offscreen(&config, Vec2D::new(0, -460_001)));
}

#[test]
fn aiming_keeps_the_speed() {
    assert_eq!(scale_to(Vec2D::new(3, 4), 500), Vec2D::new(300, 400));
    assert_eq!(scale_to(Vec2D::new(-3, 4), 500), Vec2D::new(-300, 400));
    assert_eq!(scale_to(Vec2D::new(0, -7), 500), Vec2D::new(0, -500));
    assert_eq!(scale_to(Vec2D::zero(), 500), Vec2D::zero());
    // the length of (1, 1) is rounded down to 1
    assert_eq!(scale_to(Vec2D::new(1, 1), 500), Vec2D::new(500, 500));
    assert_eq!(scale_to(Vec2D::new(1000, 1000), 500), Vec2D::new(353, 353));
    assert_eq!(aim_at(Vec2D::new(10, 10), Vec2D::new(40, 50), 1000), Vec2D::new(600, 800));
    assert_eq!(aim_at(Vec2D::new(10, 10), Vec2D::new(10, 10), 1000), Vec2D::zero());
    assert_eq!(
        aim_at(Vec2D::new(-1_000_000_000, 0), Vec2D::new(1_000_000_000, 0), i32::MAX as u32),
        Vec2D::new(i32::MAX, 0)
    );
}

#[test]
fn bullets_fly_and_run_out() {
    let config = GameConfig::default();
    let plain = Bullet { velocity: Vec2D::new(0, -300_000), damage: 1, is_player_bullet: false };
    assert_eq!(update_bullet(Vec2D::new(5, 5), &plain, 100_000), Vec2D::new(5, -29_995));
    let mut shot =
        WeaponBullet { weapon_type: WeaponType::Laser, damage: 3, velocity: Vec2D::new(0, 600_000), lifetime: 150_000 };
    let flight = update_weapon_bullet(&config, Vec2D::new(0, 0), &mut shot, 100_000);
    assert_eq!(flight, Flight { position: Vec2D::new(0, 60_000), despawn: false });
    assert_eq!(shot.lifetime, 50_000);
    // its time is up: it is removed where it is
    let flight = update_weapon_bullet(&config, flight.position, &mut shot, 50_000);
    assert_eq!(flight, Flight { position: Vec2D::new(0, 60_000), despawn: true });
    let mut far = BossBullet { damage: 1, velocity: Vec2D::new(200_000, 0), lifetime: 5_000_000 };
    let flight = update_boss_bullet(&config, Vec2D::new(280_000, 0), &mut far, 100_000);
    assert_eq!(flight, Flight { position: Vec2D::new(300_000, 0), despawn: true });
    assert_eq!(far.lifetime, 4_900_000);
    let mut effect = EffectLifetime { remaining: 140_000 };
    assert!(!update_effect_lifetime(&mut effect, 100_000));
    assert!(update_effect_lifetime(&mut effect, 40_000));
    assert_eq!(effect.remaining, 0);
}

#[test]
fn a_homing_missile_turns_towards_its_target() {
    let homing = HomingMissile { target: None, turn_rate: 3_500, max_lifetime: 4_000_000, speed: 1000 };
    let up = Vec2D::new(0, 1000);
    // nothing to chase: it keeps its course and its speed
    assert_eq!(steer(Vec2D::zero(), up, &homing, None, 100_000), up);
    assert_eq!(steer(Vec2D::zero(), Vec2D::new(0, 7), &homing, None, 100_000), up);
    assert_eq!(steer(Vec2D::zero(), Vec2D::zero(), &homing, None, 100_000), up);
    // a target to the right, a tenth of a second: 35 hundredths of the way
    let turned = steer(Vec2D::zero(), up, &homing, Some(Vec2D::new(500, 0)), 100_000);
    // blended (350, 650), length 738
    assert_eq!(turned, Vec2D::new(474, 880));
    // a long frame turns all the way
    assert_eq!(steer(Vec2D::zero(), up, &homing, Some(Vec2D::new(500, 0)), 1_000_000), Vec2D::new(1000, 0));
    // on top of its target it flies on
    assert_eq!(steer(Vec2D::zero(), up, &homing, Some(Vec2D::zero()), 1_000_000), up);
}

#[test]
fn the_closest_allowed_point_is_found() {
    let points = vec![Vec2D::new(5, 0), Vec2D::new(1, 0), Vec2D::new(0, -1), Vec2D::new(9, 9)];
    assert_eq!(closest_of(&points, &vec![true, true, true, true], Vec2D::zero()), Some(1));
    assert_eq!(closest_of(&points, &vec![true, false, true, true], Vec2D::zero()), Some(2));
    assert_eq!(closest_of(&points, &vec![false, false, false, true], Vec2D::zero()), Some(3));
    assert_eq!(closest_of(&points, &vec![false, false, false, false], Vec2D::zero()), None);
}
