use shoot::collision::{
    check_collision, circle_circle_collision, circle_rect_collision, detect_collisions, rect_rect_collision,
    Collidable, Collider, CollisionEvent, CollisionLayer, CollisionMask, Hitbox,
};
use shoot::geometry::{CollisionShape, Vec2D};

fn circle(radius: u32) -> CollisionShape {
    CollisionShape::Circle { radius }
}

fn unit(entity: u64, x: i32, y: i32, shape: CollisionShape, layer: CollisionLayer, mask: CollisionMask) -> Collidable {
    Collidable { entity, position: Vec2D::new(x, y), collider: Collider::new(shape, layer).with_mask(mask) }
}

#[test]
fn circles_touching_collide_and_apart_do_not() {
    let a = Vec2D::new(0, 0);
    assert!(circle_circle_collision(a, 3, Vec2D::new(5, 0), 2));
    assert!(!circle_circle_collision(a, 3, Vec2D::new(6, 0), 2));
    assert!(circle_circle_collision(a, 3, Vec2D::new(3, 4), 2));
    assert!(!circle_circle_collision(a, 2, Vec2D::new(3, 4), 2));
}

#[test]
fn circle_collision_is_symmetric() {
    let points = [(0, 0), (7, -3), (-2_000_000_000, 2_000_000_000), (5, 12), (i32::MAX, i32::MIN)];
    let radii = [0u64, 1, 5, 13, 4_000_000_000];
    for &(ax, ay) in points.iter() {
        for &(bx, by) in points.iter() {
            for &ra in radii.iter() {
                for &rb in radii.iter() {
                    let a = Vec2D::new(ax, ay);
                    let b = Vec2D::new(bx, by);
                    assert_eq!(circle_circle_collision(a, ra, b, rb), circle_circle_collision(b, rb, a, ra));
                }
            }
        }
    }
}

#[test]
fn circle_against_rectangle_uses_the_nearest_point() {
    let rect = Vec2D::new(0, 0);
    // the rectangle spans -10..10 by -5..5
    assert!(circle_rect_collision(Vec2D::new(0, 0), 1, rect, 20, 10));
    assert!(circle_rect_collision(Vec2D::new(13, 0), 3, rect, 20, 10));
    assert!(!circle_rect_collision(Vec2D::new(14, 0), 3, rect, 20, 10));
    // the corner (10, 5) is 5 away from (13, 9)
    assert!(circle_rect_collision(Vec2D::new(13, 9), 5, rect, 20, 10));
    assert!(!circle_rect_collision(Vec2D::new(13, 9), 4, rect, 20, 10));
    // odd sizes keep their half units
    assert!(circle_rect_collision(Vec2D::new(3, 0), 2, rect, 3, 3));
    assert!(!circle_rect_collision(Vec2D::new(4, 0), 2, rect, 3, 3));
}

#[test]
fn rectangles_that_only_touch_do_not_overlap() {
    let a = Vec2D::new(0, 0);
    assert!(rect_rect_collision(a, 10, 10, Vec2D::new(9, 0), 10, 10));
    assert!(!rect_rect_collision(a, 10, 10, Vec2D::new(10, 0), 10, 10));
    assert!(!rect_rect_collision(a, 10, 10, Vec2D::new(0, -10), 10, 10));
    assert!(rect_rect_collision(a, 10, 10, Vec2D::new(0, -9), 10, 10));
}

#[test]
fn polygons_count_as_their_bounding_circle() {
    let thin = CollisionShape::Polygon { vertices: vec![Vec2D::new(-100, 0), Vec2D::new(100, 0), Vec2D::new(0, 1)] };
    let origin = Vec2D::new(0, 0);
    // far above the thin polygon, but inside its bounding circle of radius 100
    assert!(check_collision(&origin, &thin, &Vec2D::new(0, 99), &circle(0)));
    assert!(check_collision(&Vec2D::new(0, 99), &circle(0), &origin, &thin));
    assert!(!check_collision(&origin, &thin, &Vec2D::new(0, 101), &circle(0)));
    assert!(check_collision(&origin, &thin, &Vec2D::new(0, 200), &thin));
    assert!(!check_collision(&origin, &thin, &Vec2D::new(0, 201), &thin));
    let rect = CollisionShape::Rectangle { width: 10, height: 10 };
    assert!(check_collision(&origin, &thin, &Vec2D::new(105, 0), &rect));
    assert!(check_collision(&Vec2D::new(105, 0), &rect, &origin, &thin));
    assert!(!check_collision(&origin, &thin, &Vec2D::new(106, 0), &rect));
}

#[test]
fn scan_reports_pairs_in_snapshot_order() {
    let units = vec![
        unit(10, 0, 0, circle(5), CollisionLayer::Player, CollisionMask::player_mask()),
        unit(11, 3, 0, circle(5), CollisionLayer::Enemy, CollisionMask::enemy_mask()),
        unit(12, 100, 0, circle(5), CollisionLayer::Enemy, CollisionMask::enemy_mask()),
        unit(13, 1, 1, circle(1), CollisionLayer::EnemyBullet, CollisionMask::enemy_bullet_mask()),
    ];
    let events = detect_collisions(&units);
    assert_eq!(
        events,
        vec![
            CollisionEvent {
                entity_a: 10,
                entity_b: 11,
                layer_a: CollisionLayer::Player,
                layer_b: CollisionLayer::Enemy,
            },
            CollisionEvent {
                entity_a: 10,
                entity_b: 13,
                layer_a: CollisionLayer::Player,
                layer_b: CollisionLayer::EnemyBullet,
            },
        ]
    );
}

#[test]
fn masks_gate_events_whatever_the_overlap() {
    // two enemies on top of each other: neither mask permits the enemy layer
    let units = vec![
        unit(1, 0, 0, circle(5), CollisionLayer::Enemy, CollisionMask::enemy_mask()),
        unit(2, 0, 0, circle(5), CollisionLayer::Enemy, CollisionMask::enemy_mask()),
        unit(3, 0, 0, circle(5), CollisionLayer::EnemyBullet, CollisionMask::enemy_bullet_mask()),
    ];
    assert_eq!(detect_collisions(&units), vec![]);
}

#[test]
fn one_permitting_mask_is_enough() {
    let nothing =
        CollisionMask { player: false, player_bullet: false, enemy: false, enemy_bullet: false, power_up: false };
    let units = vec![
        unit(1, 0, 0, circle(5), CollisionLayer::PlayerBullet, nothing),
        unit(2, 0, 0, circle(5), CollisionLayer::Enemy, CollisionMask::enemy_mask()),
    ];
    assert_eq!(detect_collisions(&units).len(), 1);
    let units = vec![
        unit(1, 0, 0, circle(5), CollisionLayer::PlayerBullet, CollisionMask::player_bullet_mask()),
        unit(2, 0, 0, circle(5), CollisionLayer::Enemy, nothing),
    ];
    assert_eq!(detect_collisions(&units).len(), 1);
}

#[test]
fn the_named_masks_permit_what_they_should() {
    let layers = [
        CollisionLayer::Player,
        CollisionLayer::PlayerBullet,
        CollisionLayer::Enemy,
        CollisionLayer::EnemyBullet,
        CollisionLayer::PowerUp,
    ];
    let expect = |mask: CollisionMask, allowed: [bool; 5]| {
        for (layer, want) in layers.iter().zip(allowed.iter()) {
            assert_eq!(mask.can_collide_with(*layer), *want);
        }
    };
    expect(CollisionMask::default(), [true, true, true, true, true]);
    expect(CollisionMask::player_mask(), [false, false, true, true, true]);
    expect(CollisionMask::player_bullet_mask(), [false, false, true, false, false]);
    expect(CollisionMask::enemy_mask(), [true, true, false, false, false]);
    expect(CollisionMask::enemy_bullet_mask(), [true, false, false, false, false]);
    expect(CollisionMask::aura_orb_mask(), [false, false, true, true, false]);
}

#[test]
fn each_layer_has_its_standard_mask() {
    assert_eq!(CollisionMask::standard(CollisionLayer::Player), CollisionMask::player_mask());
    assert_eq!(CollisionMask::standard(CollisionLayer::PlayerBullet), CollisionMask::player_bullet_mask());
    assert_eq!(CollisionMask::standard(CollisionLayer::Enemy), CollisionMask::enemy_mask());
    assert_eq!(CollisionMask::standard(CollisionLayer::EnemyBullet), CollisionMask::enemy_bullet_mask());
    assert_eq!(CollisionMask::standard(CollisionLayer::PowerUp), CollisionMask::default());
    let hitbox = Hitbox::on(CollisionLayer::EnemyBullet, 5_000);
    assert_eq!(
        hitbox,
        Hitbox { radius: 5_000, layer: CollisionLayer::EnemyBullet, mask: CollisionMask::enemy_bullet_mask() }
    );
    let collider = hitbox.collider();
    assert!(matches!(collider.shape, CollisionShape::Circle { radius: 5_000 }));
    assert_eq!((collider.layer, collider.mask), (CollisionLayer::EnemyBullet, CollisionMask::enemy_bullet_mask()));
}

#[test]
fn gated_pairs_raise_no_event_in_either_order() {
    // the enemy bullet lies on the enemy and on the player bullet: only the ship concerns it
    let units = vec![
        unit(1, 0, 0, circle(5), CollisionLayer::EnemyBullet, CollisionMask::enemy_bullet_mask()),
        unit(2, 0, 0, circle(5), CollisionLayer::Enemy, CollisionMask::enemy_mask()),
        unit(3, 0, 0, circle(5), CollisionLayer::PlayerBullet, CollisionMask::player_bullet_mask()),
        unit(4, 0, 0, circle(5), CollisionLayer::Player, CollisionMask::player_mask()),
    ];
    let events = detect_collisions(&units);
    let pairs: Vec<(u64, u64)> = events.iter().map(|e| (e.entity_a, e.entity_b)).collect();
    assert_eq!(pairs, vec![(1, 4), (2, 3), (2, 4)]);
}
