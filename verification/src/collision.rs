//! Collision detection: shape-pair overlap tests, layers, masks and the pairwise scan.

use vstd::prelude::*;
use crate::geometry::{
    bounding_radius, lemma_square_bound, polygon_bounding_radius, CollisionShape, Vec2D,
};

verus! {

/// What an entity is, for the purpose of collisions.
#[derive(Clone, Copy, PartialEq, Eq, Structural, Debug)]
pub enum CollisionLayer {
    Player,
    PlayerBullet,
    Enemy,
    EnemyBullet,
    PowerUp,
}

/// For each layer, whether the owner reacts to a collision with it.
#[derive(Clone, Copy, PartialEq, Eq, Structural, Debug)]
pub struct CollisionMask {
    pub player: bool,
    pub player_bullet: bool,
    pub enemy: bool,
    pub enemy_bullet: bool,
    pub power_up: bool,
}

/// The mask that an entity on `layer` has unless it is given another: the
/// ship reacts to enemies, enemy bullets and power-ups; a bullet of the player
/// to enemies; an enemy to the ship and its bullets; an enemy bullet to the
/// ship; a power-up to everything.
pub open spec fn standard_mask(layer: CollisionLayer) -> CollisionMask {
    match layer {
        CollisionLayer::Player => CollisionMask {
            player: false,
            player_bullet: false,
            enemy: true,
            enemy_bullet: true,
            power_up: true,
        },
        CollisionLayer::PlayerBullet => CollisionMask {
            player: false,
            player_bullet: false,
            enemy: true,
            enemy_bullet: false,
            power_up: false,
        },
        CollisionLayer::Enemy => CollisionMask {
            player: true,
            player_bullet: true,
            enemy: false,
            enemy_bullet: false,
            power_up: false,
        },
        CollisionLayer::EnemyBullet => CollisionMask {
            player: true,
            player_bullet: false,
            enemy: false,
            enemy_bullet: false,
            power_up: false,
        },
        CollisionLayer::PowerUp => CollisionMask {
            player: true,
            player_bullet: true,
            enemy: true,
            enemy_bullet: true,
            power_up: true,
        },
    }
}

impl Default for CollisionMask {
    /// The mask that reacts to every layer.
    fn default() -> (mask: CollisionMask)
        ensures
            mask == standard_mask(CollisionLayer::PowerUp),
            forall|layer: CollisionLayer| mask.permits(layer),
    {
        CollisionMask { player: true, player_bullet: true, enemy: true, enemy_bullet: true, power_up: true }
    }
}

impl CollisionMask {
    /// Whether the mask reacts to `layer`.
    pub open spec fn permits(self, layer: CollisionLayer) -> bool {
        match layer {
            CollisionLayer::Player => self.player,
            CollisionLayer::PlayerBullet => self.player_bullet,
            CollisionLayer::Enemy => self.enemy,
            CollisionLayer::EnemyBullet => self.enemy_bullet,
            CollisionLayer::PowerUp => self.power_up,
        }
    }

    /// The player reacts to enemies, enemy bullets and power-ups.
    pub fn player_mask() -> (mask: CollisionMask)
        ensures
            mask == standard_mask(CollisionLayer::Player),
            forall|layer: CollisionLayer|
                mask.permits(layer) <==> (layer == CollisionLayer::Enemy || layer
                    == CollisionLayer::EnemyBullet || layer == CollisionLayer::PowerUp),
    {
        CollisionMask { player: false, player_bullet: false, enemy: true, enemy_bullet: true, power_up: true }
    }

    /// A player bullet reacts to enemies only.
    pub fn player_bullet_mask() -> (mask: CollisionMask)
        ensures
            mask == standard_mask(CollisionLayer::PlayerBullet),
            forall|layer: CollisionLayer| mask.permits(layer) <==> layer == CollisionLayer::Enemy,
    {
        CollisionMask {
            player: false,
            player_bullet: false,
            enemy: true,
            enemy_bullet: false,
            power_up: false,
        }
    }

    /// An enemy reacts to the player and to player bullets.
    pub fn enemy_mask() -> (mask: CollisionMask)
        ensures
            mask == standard_mask(CollisionLayer::Enemy),
            forall|layer: CollisionLayer|
                mask.permits(layer) <==> (layer == CollisionLayer::Player || layer
                    == CollisionLayer::PlayerBullet),
    {
        CollisionMask {
            player: true,
            player_bullet: true,
            enemy: false,
            enemy_bullet: false,
            power_up: false,
        }
    }

    /// An enemy bullet reacts to the player only.
    pub fn enemy_bullet_mask() -> (mask: CollisionMask)
        ensures
            mask == standard_mask(CollisionLayer::EnemyBullet),
            forall|layer: CollisionLayer| mask.permits(layer) <==> layer == CollisionLayer::Player,
    {
        CollisionMask {
            player: true,
            player_bullet: false,
            enemy: false,
            enemy_bullet: false,
            power_up: false,
        }
    }

    /// The mask of an orbiting aura orb: that of a player bullet, and enemy bullets as well.
    pub fn aura_orb_mask() -> (mask: CollisionMask)
        ensures
            forall|layer: CollisionLayer|
                mask.permits(layer) <==> (layer == CollisionLayer::Enemy || layer
                    == CollisionLayer::EnemyBullet),
    {
        CollisionMask {
            player: false,
            player_bullet: false,
            enemy: true,
            enemy_bullet: true,
            power_up: false,
        }
    }

    /// The mask of an aura orb, with each of its fields stated.
    pub fn aura_orb_mask_value() -> (mask: CollisionMask)
        ensures
            mask == (CollisionMask {
                player: false,
                player_bullet: false,
                enemy: true,
                enemy_bullet: true,
                power_up: false,
            }),
    {
        CollisionMask {
            player: false,
            player_bullet: false,
            enemy: true,
            enemy_bullet: true,
            power_up: false,
        }
    }

    /// The mask that an entity on `layer` has unless it is given another.
    pub fn standard(layer: CollisionLayer) -> (mask: CollisionMask)
        ensures
            mask == standard_mask(layer),
    {
        match layer {
            CollisionLayer::Player => CollisionMask::player_mask(),
            CollisionLayer::PlayerBullet => CollisionMask::player_bullet_mask(),
            CollisionLayer::Enemy => CollisionMask::enemy_mask(),
            CollisionLayer::EnemyBullet => CollisionMask::enemy_bullet_mask(),
            CollisionLayer::PowerUp => CollisionMask::default(),
        }
    }

    /// Whether the mask reacts to `layer`.
    pub fn can_collide_with(&self, layer: CollisionLayer) -> (allowed: bool)
        ensures
            allowed == self.permits(layer),
    {
        match layer {
            CollisionLayer::Player => self.player,
            CollisionLayer::PlayerBullet => self.player_bullet,
            CollisionLayer::Enemy => self.enemy,
            CollisionLayer::EnemyBullet => self.enemy_bullet,
            CollisionLayer::PowerUp => self.power_up,
        }
    }
}

/// Shape, layer and mask of a collidable entity.
#[derive(Clone, Debug)]
pub struct Collider {
    pub shape: CollisionShape,
    pub layer: CollisionLayer,
    pub mask: CollisionMask,
}

impl Collider {
    /// A collider on `layer` that reacts to every layer.
    pub fn new(shape: CollisionShape, layer: CollisionLayer) -> (collider: Collider)
        ensures
            collider.shape == shape,
            collider.layer == layer,
            forall|other: CollisionLayer| collider.mask.permits(other),
    {
        Collider { shape, layer, mask: CollisionMask::default() }
    }

    /// The same collider with `mask` in place of its mask.
    pub fn with_mask(self, mask: CollisionMask) -> (collider: Collider)
        ensures
            collider.shape == self.shape,
            collider.layer == self.layer,
            collider.mask == mask,
    {
        let mut collider = self;
        collider.mask = mask;
        collider
    }
}

/// The collider of an entity whose shape is a circle: radius, layer and mask.
#[derive(Clone, Copy, PartialEq, Eq, Structural, Debug)]
pub struct Hitbox {
    pub radius: u32,
    pub layer: CollisionLayer,
    pub mask: CollisionMask,
}

/// The circle of `radius` on `layer`, with the layer's standard mask.
pub open spec fn hitbox_on(layer: CollisionLayer, radius: int) -> Hitbox {
    Hitbox { radius: radius as u32, layer, mask: standard_mask(layer) }
}

impl Hitbox {
    /// The hitbox as a collider.
    pub open spec fn as_collider(self) -> Collider {
        Collider { shape: CollisionShape::Circle { radius: self.radius }, layer: self.layer, mask: self.mask }
    }

    /// The circle of `radius` on `layer`, with the layer's standard mask.
    pub fn on(layer: CollisionLayer, radius: u32) -> (hitbox: Hitbox)
        ensures
            hitbox == hitbox_on(layer, radius as int),
    {
        Hitbox { radius, layer, mask: CollisionMask::standard(layer) }
    }

    /// The hitbox as a collider.
    pub fn collider(&self) -> (collider: Collider)
        ensures
            collider == self.as_collider(),
    {
        Collider { shape: CollisionShape::Circle { radius: self.radius }, layer: self.layer, mask: self.mask }
    }
}

/// Two discs overlap when their centres are no further apart than the sum of the radii.
pub open spec fn circles_overlap(pos_a: Vec2D, r_a: int, pos_b: Vec2D, r_b: int) -> bool {
    pos_a.dist_sq(pos_b) <= (r_a + r_b) * (r_a + r_b)
}

/// `v` moved into `[lo, hi]`.
pub open spec fn clamp(v: int, lo: int, hi: int) -> int {
    if v < lo {
        lo
    } else if v > hi {
        hi
    } else {
        v
    }
}

/// A disc and an axis-aligned rectangle overlap when the point of the rectangle
/// nearest to the disc's centre is no further from it than the radius. All
/// coordinates are doubled, so that the rectangle's half extents are whole.
pub open spec fn circle_rect_overlap(circle_pos: Vec2D, radius: int, rect_pos: Vec2D, width: int, height: int) -> bool {
    let nearest_x = clamp(2 * circle_pos.x, 2 * rect_pos.x - width, 2 * rect_pos.x + width);
    let nearest_y = clamp(2 * circle_pos.y, 2 * rect_pos.y - height, 2 * rect_pos.y + height);
    (2 * circle_pos.x - nearest_x) * (2 * circle_pos.x - nearest_x) + (2 * circle_pos.y - nearest_y) * (2
        * circle_pos.y - nearest_y) <= (2 * radius) * (2 * radius)
}

/// Two axis-aligned rectangles overlap when their interiors meet on both axes.
/// Rectangles that only touch do not overlap. All coordinates are doubled.
pub open spec fn rects_overlap(pos_a: Vec2D, w_a: int, h_a: int, pos_b: Vec2D, w_b: int, h_b: int) -> bool {
    &&& 2 * pos_a.x - w_a < 2 * pos_b.x + w_b
    &&& 2 * pos_a.x + w_a > 2 * pos_b.x - w_b
    &&& 2 * pos_a.y - h_a < 2 * pos_b.y + h_b
    &&& 2 * pos_a.y + h_a > 2 * pos_b.y - h_b
}

/// Whether two shapes at the given positions overlap. A polygon counts as its
/// bounding circle.
pub open spec fn shapes_collide(pos_a: Vec2D, shape_a: CollisionShape, pos_b: Vec2D, shape_b: CollisionShape) -> bool {
    match (shape_a, shape_b) {
        (CollisionShape::Circle { radius: r_a }, CollisionShape::Circle { radius: r_b }) => circles_overlap(
            pos_a,
            r_a as int,
            pos_b,
            r_b as int,
        ),
        (CollisionShape::Circle { radius }, CollisionShape::Rectangle { width, height }) => circle_rect_overlap(
            pos_a,
            radius as int,
            pos_b,
            width as int,
            height as int,
        ),
        (CollisionShape::Rectangle { width, height }, CollisionShape::Circle { radius }) => circle_rect_overlap(
            pos_b,
            radius as int,
            pos_a,
            width as int,
            height as int,
        ),
        (
            CollisionShape::Rectangle { width: w_a, height: h_a },
            CollisionShape::Rectangle { width: w_b, height: h_b },
        ) => rects_overlap(pos_a, w_a as int, h_a as int, pos_b, w_b as int, h_b as int),
        (CollisionShape::Polygon { vertices: v_a }, CollisionShape::Polygon { vertices: v_b }) => circles_overlap(
            pos_a,
            bounding_radius(v_a@),
            pos_b,
            bounding_radius(v_b@),
        ),
        (CollisionShape::Polygon { vertices }, CollisionShape::Circle { radius }) => circles_overlap(
            pos_a,
            bounding_radius(vertices@),
            pos_b,
            radius as int,
        ),
        (CollisionShape::Circle { radius }, CollisionShape::Polygon { vertices }) => circles_overlap(
            pos_a,
            radius as int,
            pos_b,
            bounding_radius(vertices@),
        ),
        (CollisionShape::Polygon { vertices }, CollisionShape::Rectangle { width, height }) => circle_rect_overlap(
            pos_a,
            bounding_radius(vertices@),
            pos_b,
            width as int,
            height as int,
        ),
        (CollisionShape::Rectangle { width, height }, CollisionShape::Polygon { vertices }) => circle_rect_overlap(
            pos_b,
            bounding_radius(vertices@),
            pos_a,
            width as int,
            height as int,
        ),
    }
}

/// Disc against disc. The radii are at most `2^32`.
pub fn circle_circle_collision(pos_a: Vec2D, r_a: u64, pos_b: Vec2D, r_b: u64) -> (hit: bool)
    requires
        r_a <= 0x1_0000_0000,
        r_b <= 0x1_0000_0000,
    ensures
        hit == circles_overlap(pos_a, r_a as int, pos_b, r_b as int),
{
    let distance_sq = pos_a.distance_squared(pos_b);
    let radius_sum: u128 = r_a as u128 + r_b as u128;
    proof {
        lemma_square_bound(radius_sum as int, 0x2_0000_0000);
    }
    distance_sq <= radius_sum * radius_sum
}

fn clamp_i128(v: i128, lo: i128, hi: i128) -> (r: i128)
    ensures
        r == clamp(v as int, lo as int, hi as int),
{
    if v < lo {
        lo
    } else if v > hi {
        hi
    } else {
        v
    }
}

/// Disc against axis-aligned rectangle. The radius is at most `2^32`.
pub fn circle_rect_collision(circle_pos: Vec2D, radius: u64, rect_pos: Vec2D, width: u32, height: u32) -> (hit: bool)
    requires
        radius <= 0x1_0000_0000,
    ensures
        hit == circle_rect_overlap(circle_pos, radius as int, rect_pos, width as int, height as int),
{
    let cx: i128 = 2 * (circle_pos.x as i128);
    let cy: i128 = 2 * (circle_pos.y as i128);
    let rx: i128 = 2 * (rect_pos.x as i128);
    let ry: i128 = 2 * (rect_pos.y as i128);
    let nearest_x = clamp_i128(cx, rx - width as i128, rx + width as i128);
    let nearest_y = clamp_i128(cy, ry - height as i128, ry + height as i128);
    let dx: i128 = cx - nearest_x;
    let dy: i128 = cy - nearest_y;
    let reach: i128 = 2 * (radius as i128);
    proof {
        lemma_square_bound(dx as int, 0x8_0000_0000);
        lemma_square_bound(dy as int, 0x8_0000_0000);
        lemma_square_bound(reach as int, 0x2_0000_0000);
    }
    dx * dx + dy * dy <= reach * reach
}

/// Axis-aligned rectangle against axis-aligned rectangle.
pub fn rect_rect_collision(pos_a: Vec2D, w_a: u32, h_a: u32, pos_b: Vec2D, w_b: u32, h_b: u32) -> (hit: bool)
    ensures
        hit == rects_overlap(pos_a, w_a as int, h_a as int, pos_b, w_b as int, h_b as int),
{
    let ax: i64 = 2 * (pos_a.x as i64);
    let ay: i64 = 2 * (pos_a.y as i64);
    let bx: i64 = 2 * (pos_b.x as i64);
    let by: i64 = 2 * (pos_b.y as i64);
    ax - (w_a as i64) < bx + (w_b as i64) && ax + (w_a as i64) > bx - (w_b as i64) && ay - (h_a as i64) < by
        + (h_b as i64) && ay + (h_a as i64) > by - (h_b as i64)
}

/// Whether two shapes at the given positions overlap.
pub fn check_collision(pos_a: &Vec2D, shape_a: &CollisionShape, pos_b: &Vec2D, shape_b: &CollisionShape) -> (hit: bool)
    ensures
        hit == shapes_collide(*pos_a, *shape_a, *pos_b, *shape_b),
{
    match (shape_a, shape_b) {
        (CollisionShape::Circle { radius: r_a }, CollisionShape::Circle { radius: r_b }) => {
            circle_circle_collision(*pos_a, *r_a as u64, *pos_b, *r_b as u64)
        },
        (CollisionShape::Circle { radius }, CollisionShape::Rectangle { width, height }) => {
            circle_rect_collision(*pos_a, *radius as u64, *pos_b, *width, *height)
        },
        (CollisionShape::Rectangle { width, height }, CollisionShape::Circle { radius }) => {
            circle_rect_collision(*pos_b, *radius as u64, *pos_a, *width, *height)
        },
        (
            CollisionShape::Rectangle { width: w_a, height: h_a },
            CollisionShape::Rectangle { width: w_b, height: h_b },
        ) => { rect_rect_collision(*pos_a, *w_a, *h_a, *pos_b, *w_b, *h_b) },
        (CollisionShape::Polygon { vertices: v_a }, CollisionShape::Polygon { vertices: v_b }) => {
            let r_a = polygon_bounding_radius(v_a);
            let r_b = polygon_bounding_radius(v_b);
            circle_circle_collision(*pos_a, r_a, *pos_b, r_b)
        },
        (CollisionShape::Polygon { vertices }, CollisionShape::Circle { radius }) => {
            let poly_r = polygon_bounding_radius(vertices);
            circle_circle_collision(*pos_a, poly_r, *pos_b, *radius as u64)
        },
        (CollisionShape::Circle { radius }, CollisionShape::Polygon { vertices }) => {
            let poly_r = polygon_bounding_radius(vertices);
            circle_circle_collision(*pos_a, *radius as u64, *pos_b, poly_r)
        },
        (CollisionShape::Polygon { vertices }, CollisionShape::Rectangle { width, height }) => {
            let poly_r = polygon_bounding_radius(vertices);
            circle_rect_collision(*pos_a, poly_r, *pos_b, *width, *height)
        },
        (CollisionShape::Rectangle { width, height }, CollisionShape::Polygon { vertices }) => {
            let poly_r = polygon_bounding_radius(vertices);
            circle_rect_collision(*pos_b, poly_r, *pos_a, *width, *height)
        },
    }
}

/// The squared distance does not depend on the order of the two points.
pub proof fn lemma_dist_sq_symmetric(a: Vec2D, b: Vec2D)
    ensures
        a.dist_sq(b) == b.dist_sq(a),
{
    assert((a.x - b.x) * (a.x - b.x) == (b.x - a.x) * (b.x - a.x)) by (nonlinear_arith);
    assert((a.y - b.y) * (a.y - b.y) == (b.y - a.y) * (b.y - a.y)) by (nonlinear_arith);
}

/// Two circles collide in either order or in neither.
pub proof fn lemma_circle_collision_symmetric(pos_a: Vec2D, r_a: int, pos_b: Vec2D, r_b: int)
    ensures
        circles_overlap(pos_a, r_a, pos_b, r_b) == circles_overlap(pos_b, r_b, pos_a, r_a),
{
    lemma_dist_sq_symmetric(pos_a, pos_b);
    assert((r_a + r_b) * (r_a + r_b) == (r_b + r_a) * (r_b + r_a));
}

/// Any two shapes collide in either order or in neither.
pub proof fn lemma_collision_symmetric(pos_a: Vec2D, shape_a: CollisionShape, pos_b: Vec2D, shape_b: CollisionShape)
    ensures
        shapes_collide(pos_a, shape_a, pos_b, shape_b) == shapes_collide(pos_b, shape_b, pos_a, shape_a),
{
    lemma_dist_sq_symmetric(pos_a, pos_b);
    match (shape_a, shape_b) {
        (CollisionShape::Circle { radius: r_a }, CollisionShape::Circle { radius: r_b }) => {
            lemma_circle_collision_symmetric(pos_a, r_a as int, pos_b, r_b as int);
        },
        (CollisionShape::Polygon { vertices: v_a }, CollisionShape::Polygon { vertices: v_b }) => {
            lemma_circle_collision_symmetric(pos_a, bounding_radius(v_a@), pos_b, bounding_radius(v_b@));
        },
        (CollisionShape::Polygon { vertices }, CollisionShape::Circle { radius }) => {
            lemma_circle_collision_symmetric(pos_a, bounding_radius(vertices@), pos_b, radius as int);
        },
        (CollisionShape::Circle { radius }, CollisionShape::Polygon { vertices }) => {
            lemma_circle_collision_symmetric(pos_a, radius as int, pos_b, bounding_radius(vertices@));
        },
        _ => {},
    }
}

/// One entity of a frame's snapshot: its handle, where it is, and its collider.
#[derive(Clone, Debug)]
pub struct Collidable {
    pub entity: u64,
    pub position: Vec2D,
    pub collider: Collider,
}

/// Two entities whose shapes overlap, with the layer of each.
#[derive(Clone, Copy, PartialEq, Eq, Structural, Debug)]
pub struct CollisionEvent {
    pub entity_a: u64,
    pub entity_b: u64,
    pub layer_a: CollisionLayer,
    pub layer_b: CollisionLayer,
}

/// At least one of the two reacts to the other's layer.
pub open spec fn masks_permit(a: Collidable, b: Collidable) -> bool {
    a.collider.mask.permits(b.collider.layer) || b.collider.mask.permits(a.collider.layer)
}

/// The pair raises an event: a mask permits it and the shapes overlap.
pub open spec fn pair_collides(a: Collidable, b: Collidable) -> bool {
    masks_permit(a, b) && shapes_collide(a.position, a.collider.shape, b.position, b.collider.shape)
}

/// The event that the pair `(a, b)` raises, in that order.
pub open spec fn event_of(a: Collidable, b: Collidable) -> CollisionEvent {
    CollisionEvent {
        entity_a: a.entity,
        entity_b: b.entity,
        layer_a: a.collider.layer,
        layer_b: b.collider.layer,
    }
}

/// The events of entity `i` with the entities after it and before `end`, in order.
pub open spec fn row_events(entities: Seq<Collidable>, i: int, end: int) -> Seq<CollisionEvent>
    decreases end - i,
{
    if end <= i + 1 {
        Seq::empty()
    } else {
        let before = row_events(entities, i, end - 1);
        if pair_collides(entities[i], entities[end - 1]) {
            before.push(event_of(entities[i], entities[end - 1]))
        } else {
            before
        }
    }
}

/// The events of the first `rows` entities, each with all entities after it.
pub open spec fn events_of_rows(entities: Seq<Collidable>, rows: int) -> Seq<CollisionEvent>
    decreases rows,
{
    if rows <= 0 {
        Seq::empty()
    } else {
        events_of_rows(entities, rows - 1) + row_events(entities, rows - 1, entities.len() as int)
    }
}

/// The events of a snapshot: one for each pair `i < j` that collides, ordered by
/// `i` and then by `j`.
pub open spec fn collision_events(entities: Seq<Collidable>) -> Seq<CollisionEvent> {
    events_of_rows(entities, entities.len() as int)
}

/// Finds every colliding pair of the snapshot. Each pair is tested once, the
/// entity that comes first in the snapshot is `entity_a` of the event, and the
/// events come in the order of the scan.
pub fn detect_collisions(entities: &Vec<Collidable>) -> (events: Vec<CollisionEvent>)
    ensures
        events@ == collision_events(entities@),
        distinct_handles(entities@) ==> masks_gate(entities@, events@),
{
    let mut events: Vec<CollisionEvent> = Vec::new();
    let n = entities.len();
    let mut i: usize = 0;
    while i < n
        invariant
            n == entities.len(),
            i <= n,
            events@ == events_of_rows(entities@, i as int),
        decreases n - i,
    {
        let ghost before = events@;
        let mut j: usize = i + 1;
        while j < n
            invariant
                n == entities.len(),
                i < n,
                i + 1 <= j <= n,
                events@ == before + row_events(entities@, i as int, j as int),
            decreases n - j,
        {
            let a = &entities[i];
            let b = &entities[j];
            if a.collider.mask.can_collide_with(b.collider.layer) || b.collider.mask.can_collide_with(
                a.collider.layer,
            ) {
                if check_collision(&a.position, &a.collider.shape, &b.position, &b.collider.shape) {
                    events.push(
                        CollisionEvent {
                            entity_a: a.entity,
                            entity_b: b.entity,
                            layer_a: a.collider.layer,
                            layer_b: b.collider.layer,
                        },
                    );
                }
            }
            j = j + 1;
        }
        i = i + 1;
    }
    proof {
        if distinct_handles(entities@) {
            lemma_masks_gate_scan(entities@);
        }
    }
    events
}

/// A pair neither of whose masks permits the other's layer raises no event,
/// whatever the shapes do.
pub proof fn lemma_mask_gates_pair(a: Collidable, b: Collidable)
    requires
        !a.collider.mask.permits(b.collider.layer),
        !b.collider.mask.permits(a.collider.layer),
    ensures
        !pair_collides(a, b),
{
}

/// Every event of a row comes from a colliding pair of that row.
pub proof fn lemma_row_events_sound(entities: Seq<Collidable>, i: int, end: int, k: int)
    requires
        0 <= i < entities.len(),
        end <= entities.len(),
        0 <= k < row_events(entities, i, end).len(),
    ensures
        exists|j: int|
            i < j < end && pair_collides(entities[i], entities[j]) && row_events(entities, i, end)[k]
                == #[trigger] event_of(entities[i], entities[j]),
    decreases end - i,
{
    if end > i + 1 {
        let before = row_events(entities, i, end - 1);
        if k < before.len() {
            lemma_row_events_sound(entities, i, end - 1, k);
            let j = choose|j: int|
                i < j < end - 1 && pair_collides(entities[i], entities[j]) && before[k] == #[trigger] event_of(
                    entities[i],
                    entities[j],
                );
            assert(row_events(entities, i, end)[k] == event_of(entities[i], entities[j]));
        } else {
            assert(row_events(entities, i, end)[k] == event_of(entities[i], entities[end - 1]));
        }
    }
}

/// Every colliding pair of a row has its event in the row.
pub proof fn lemma_row_events_complete(entities: Seq<Collidable>, i: int, end: int, j: int)
    requires
        0 <= i < j < end <= entities.len(),
        pair_collides(entities[i], entities[j]),
    ensures
        row_events(entities, i, end).contains(event_of(entities[i], entities[j])),
    decreases end - i,
{
    let before = row_events(entities, i, end - 1);
    let row = row_events(entities, i, end);
    if j == end - 1 {
        assert(row[row.len() - 1] == event_of(entities[i], entities[j]));
    } else {
        lemma_row_events_complete(entities, i, end - 1, j);
        let k = choose|k: int| 0 <= k < before.len() && before[k] == event_of(entities[i], entities[j]);
        assert(row[k] == event_of(entities[i], entities[j]));
    }
}

/// Every event of the scan comes from a pair `i < j` of the snapshot that collides:
/// a mask permits the pair and the shapes overlap.
pub proof fn lemma_events_sound(entities: Seq<Collidable>, rows: int, k: int)
    requires
        0 <= rows <= entities.len(),
        0 <= k < events_of_rows(entities, rows).len(),
    ensures
        exists|i: int, j: int|
            0 <= i < j < entities.len() && i < rows && pair_collides(entities[i], entities[j])
                && events_of_rows(entities, rows)[k] == #[trigger] event_of(entities[i], entities[j]),
    decreases rows,
{
    let before = events_of_rows(entities, rows - 1);
    if k < before.len() {
        lemma_events_sound(entities, rows - 1, k);
        let (i, j) = choose|i: int, j: int|
            0 <= i < j < entities.len() && i < rows - 1 && pair_collides(entities[i], entities[j])
                && before[k] == #[trigger] event_of(entities[i], entities[j]);
        assert(events_of_rows(entities, rows)[k] == event_of(entities[i], entities[j]));
    } else {
        let i = rows - 1;
        let row = row_events(entities, i, entities.len() as int);
        lemma_row_events_sound(entities, i, entities.len() as int, k - before.len());
        let j = choose|j: int|
            i < j < entities.len() && pair_collides(entities[i], entities[j]) && row[k - before.len()]
                == #[trigger] event_of(entities[i], entities[j]);
        assert(events_of_rows(entities, rows)[k] == event_of(entities[i], entities[j]));
    }
}

/// Every pair `i < j` of the snapshot that collides has its event in the scan.
pub proof fn lemma_events_complete(entities: Seq<Collidable>, rows: int, i: int, j: int)
    requires
        0 <= i < j < entities.len(),
        i < rows <= entities.len(),
        pair_collides(entities[i], entities[j]),
    ensures
        events_of_rows(entities, rows).contains(event_of(entities[i], entities[j])),
    decreases rows,
{
    let before = events_of_rows(entities, rows - 1);
    let row = row_events(entities, rows - 1, entities.len() as int);
    let all = events_of_rows(entities, rows);
    if i == rows - 1 {
        lemma_row_events_complete(entities, i, entities.len() as int, j);
        let k = choose|k: int| 0 <= k < row.len() && row[k] == event_of(entities[i], entities[j]);
        assert(all[before.len() + k] == event_of(entities[i], entities[j]));
    } else {
        lemma_events_complete(entities, rows - 1, i, j);
        let k = choose|k: int| 0 <= k < before.len() && before[k] == event_of(entities[i], entities[j]);
        assert(all[k] == event_of(entities[i], entities[j]));
    }
}

/// The scan reports exactly the colliding pairs: an event is reported if and
/// only if it is the event of some pair `i < j` that a mask permits and whose
/// shapes overlap.
pub proof fn lemma_collision_events_exact(entities: Seq<Collidable>, event: CollisionEvent)
    ensures
        collision_events(entities).contains(event) <==> exists|i: int, j: int|
            0 <= i < j < entities.len() && pair_collides(entities[i], entities[j]) && event
                == #[trigger] event_of(entities[i], entities[j]),
{
    let all = collision_events(entities);
    if all.contains(event) {
        let k = choose|k: int| 0 <= k < all.len() && all[k] == event;
        lemma_events_sound(entities, entities.len() as int, k);
    }
    if exists|i: int, j: int|
        0 <= i < j < entities.len() && pair_collides(entities[i], entities[j]) && event == #[trigger] event_of(
            entities[i],
            entities[j],
        ) {
        let (i, j) = choose|i: int, j: int|
            0 <= i < j < entities.len() && pair_collides(entities[i], entities[j]) && event
                == #[trigger] event_of(entities[i], entities[j]);
        lemma_events_complete(entities, entities.len() as int, i, j);
    }
}

/// Every entity of the snapshot has a handle of its own.
pub open spec fn distinct_handles(entities: Seq<Collidable>) -> bool {
    forall|a: int, b: int|
        0 <= a < b < entities.len() ==> (#[trigger] entities[a]).entity != (#[trigger] entities[b]).entity
}

/// No event of the scan joins two entities neither of whose masks permits the
/// other's layer, in either order and whatever their shapes do.
pub open spec fn masks_gate(entities: Seq<Collidable>, events: Seq<CollisionEvent>) -> bool {
    forall|i: int, j: int, k: int|
        #![trigger entities[i], entities[j], events[k]]
        0 <= i < j < entities.len() && 0 <= k < events.len() && !masks_permit(entities[i], entities[j]) ==> !(
        events[k].entity_a == entities[i].entity && events[k].entity_b == entities[j].entity) && !(
        events[k].entity_a == entities[j].entity && events[k].entity_b == entities[i].entity)
}

/// Where every entity has a handle of its own, a pair neither of whose masks
/// permits the other's layer has no event in the scan: no event names the two
/// entities, in either order, whatever the shapes do.
pub proof fn lemma_mask_gating(entities: Seq<Collidable>, i: int, j: int, k: int)
    requires
        distinct_handles(entities),
        0 <= i < j < entities.len(),
        0 <= k < collision_events(entities).len(),
        !entities[i].collider.mask.permits(entities[j].collider.layer),
        !entities[j].collider.mask.permits(entities[i].collider.layer),
    ensures
        !(collision_events(entities)[k].entity_a == entities[i].entity && collision_events(entities)[k].entity_b
            == entities[j].entity),
        !(collision_events(entities)[k].entity_a == entities[j].entity && collision_events(entities)[k].entity_b
            == entities[i].entity),
{
    let event = collision_events(entities)[k];
    lemma_events_sound(entities, entities.len() as int, k);
    let (a, b) = choose|a: int, b: int|
        0 <= a < b < entities.len() && a < entities.len() && pair_collides(entities[a], entities[b]) && event
            == #[trigger] event_of(entities[a], entities[b]);
    if event.entity_a == entities[i].entity && event.entity_b == entities[j].entity {
        if a < i {
            assert(entities[a].entity != entities[i].entity);
        }
        if i < a {
            assert(entities[i].entity != entities[a].entity);
        }
        if b < j {
            assert(entities[b].entity != entities[j].entity);
        }
        if j < b {
            assert(entities[j].entity != entities[b].entity);
        }
    }
    if event.entity_a == entities[j].entity && event.entity_b == entities[i].entity {
        if a < j {
            assert(entities[a].entity != entities[j].entity);
        }
        if j < a {
            assert(entities[j].entity != entities[a].entity);
        }
        if b < i {
            assert(entities[b].entity != entities[i].entity);
        }
        if i < b {
            assert(entities[i].entity != entities[b].entity);
        }
    }
}

/// Where every entity has a handle of its own, the masks gate the whole scan.
pub proof fn lemma_masks_gate_scan(entities: Seq<Collidable>)
    requires
        distinct_handles(entities),
    ensures
        masks_gate(entities, collision_events(entities)),
{
    let events = collision_events(entities);
    assert forall|i: int, j: int, k: int|
        #![trigger entities[i], entities[j], events[k]]
        0 <= i < j < entities.len() && 0 <= k < events.len() && !masks_permit(entities[i], entities[j]) implies !(
    events[k].entity_a == entities[i].entity && events[k].entity_b == entities[j].entity) && !(events[k].entity_a
        == entities[j].entity && events[k].entity_b == entities[i].entity) by {
        lemma_mask_gating(entities, i, j, k);
    }
}

} // verus!
