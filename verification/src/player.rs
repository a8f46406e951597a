//! The player's ship: what collisions do to it, its time of invincibility,
//! and how it moves within the window.

use vstd::prelude::*;
use crate::collision::{clamp, hitbox_on, CollisionEvent, CollisionLayer, Hitbox};
use crate::blueprints::Blueprint;
use crate::geometry::Vec2D;
use crate::motion::{advance, advanced, scale_to, scaled_to};
use crate::states::{min_int, GameConfig, GameData};

verus! {

/// Time for which the ship cannot be hurt after it lost a life, in microseconds.
pub const INVINCIBLE_TIME: i64 = 2_000_000;

/// Distance that the ship keeps from the window's edges.
pub const PLAYER_MARGIN: u32 = 30_000;

/// The player's ship.
#[derive(Clone, Copy, PartialEq, Eq, Structural, Debug)]
pub struct Player {
    pub speed: u32,
    pub invincible: bool,
    /// Time for which the ship stays invincible, in microseconds.
    pub invincible_timer: i64,
}

impl Default for Player {
    fn default() -> (player: Player)
        ensures
            player == (Player { speed: 300_000, invincible: false, invincible_timer: 0 }),
    {
        Player { speed: 300_000, invincible: false, invincible_timer: 0 }
    }
}

/// What a power-up gives.
#[derive(Clone, Copy, PartialEq, Eq, Structural, Debug)]
pub enum PowerUpType {
    Shield,
    ExtraLife,
    WeaponUpgrade,
    Coin,
}

impl PowerUpType {
    /// The outline of a power-up of this kind.
    pub open spec fn outline(self) -> Blueprint {
        match self {
            PowerUpType::Coin => Blueprint::PowerUpCoin,
            PowerUpType::Shield => Blueprint::PowerUpShield,
            PowerUpType::ExtraLife => Blueprint::PowerUpHeart,
            PowerUpType::WeaponUpgrade => Blueprint::PowerUp,
        }
    }

    /// The collider of a power-up of this kind, as a value: the circle of
    /// its outline, on the power-up layer, reacting to everything.
    pub open spec fn pickup_hitbox(self) -> Hitbox {
        hitbox_on(CollisionLayer::PowerUp, self.outline().radius())
    }

    /// The collider of a power-up of this kind.
    pub fn hitbox(&self) -> (hitbox: Hitbox)
        ensures
            hitbox == self.pickup_hitbox(),
    {
        Hitbox::on(CollisionLayer::PowerUp, self.blueprint().collision_radius())
    }

    /// The outline of a power-up of this kind.
    pub fn blueprint(&self) -> (blueprint: Blueprint)
        ensures
            blueprint == self.outline(),
    {
        match self {
            PowerUpType::Coin => Blueprint::PowerUpCoin,
            PowerUpType::Shield => Blueprint::PowerUpShield,
            PowerUpType::ExtraLife => Blueprint::PowerUpHeart,
            PowerUpType::WeaponUpgrade => Blueprint::PowerUp,
        }
    }
}

/// A power-up.
#[derive(Clone, Copy, PartialEq, Eq, Structural, Debug)]
pub struct PowerUp {
    pub power_type: PowerUpType,
}

/// A power-up of the frame's snapshot.
#[derive(Clone, Copy, PartialEq, Eq, Structural, Debug)]
pub struct PowerUpUnit {
    pub entity: u64,
    pub power_up: PowerUp,
}

/// The progress after the ship was hit: the shield takes the hit while there
/// is any, else a life is lost.
pub open spec fn hurt(game: GameData) -> GameData {
    if game.shield > 0 {
        GameData { shield: (game.shield - 1) as u32, ..game }
    } else if game.lives > 0 {
        GameData { lives: (game.lives - 1) as u32, ..game }
    } else {
        game
    }
}

/// The ship after it was hit: a lost life makes it invincible for two seconds; the shield does not.
pub open spec fn shaken(player: Player, game: GameData) -> Player {
    if game.shield == 0 && game.lives > 0 {
        Player { invincible: true, invincible_timer: INVINCIBLE_TIME, ..player }
    } else {
        player
    }
}

/// The progress after a power-up was picked up: a coin, a point of shield, a
/// life, or the choice of a weapon. Something on the power-up layer that is no
/// power-up counts as a coin.
pub open spec fn collected(game: GameData, power_type: Option<PowerUpType>) -> GameData {
    match power_type {
        Some(PowerUpType::Coin) | None => GameData { coins: (game.coins + 1) as u32, ..game },
        Some(PowerUpType::Shield) => GameData {
            shield: min_int(game.shield + 1, game.max_shield as int) as u32,
            ..game
        },
        Some(PowerUpType::ExtraLife) => GameData {
            lives: min_int(game.lives + 1, game.max_lives as int) as u32,
            ..game
        },
        Some(PowerUpType::WeaponUpgrade) => GameData { upgrading: true, ..game },
    }
}

/// Takes a hit: the shield first, then a life.
pub fn take_hit(player: &mut Player, game: &mut GameData)
    ensures
        *final(game) == hurt(*old(game)),
        *final(player) == shaken(*old(player), *old(game)),
{
    if game.shield > 0 {
        game.shield -= 1;
    } else if game.lives > 0 {
        game.lives -= 1;
        player.invincible = true;
        player.invincible_timer = INVINCIBLE_TIME;
    }
}

/// Picks up a power-up.
pub fn collect(game: &mut GameData, power_type: Option<PowerUpType>)
    requires
        old(game).coins < u32::MAX,
    ensures
        *final(game) == collected(*old(game), power_type),
{
    match power_type {
        Some(PowerUpType::Coin) => {
            game.coins += 1;
        },
        Some(PowerUpType::Shield) => {
            game.restore_shield(1);
        },
        Some(PowerUpType::ExtraLife) => {
            game.heal(1);
        },
        Some(PowerUpType::WeaponUpgrade) => {
            game.upgrading = true;
        },
        None => {
            game.coins += 1;
        },
    }
}

/// The kind of the first power-up at or after `from` with the handle `entity`.
pub open spec fn find_power_up(power_ups: Seq<PowerUpUnit>, entity: u64, from: int) -> Option<PowerUpType>
    decreases power_ups.len() - from,
{
    if from < 0 || from >= power_ups.len() {
        None
    } else if power_ups[from].entity == entity {
        Some(power_ups[from].power_up.power_type)
    } else {
        find_power_up(power_ups, entity, from + 1)
    }
}

/// Looks up the kind of a power-up by its handle.
pub fn power_up_kind(power_ups: &Vec<PowerUpUnit>, entity: u64) -> (kind: Option<PowerUpType>)
    ensures
        kind == find_power_up(power_ups@, entity, 0),
{
    let mut i: usize = 0;
    while i < power_ups.len()
        invariant
            i <= power_ups@.len(),
            find_power_up(power_ups@, entity, 0) == find_power_up(power_ups@, entity, i as int),
        decreases power_ups@.len() - i,
    {
        if power_ups[i].entity == entity {
            return Some(power_ups[i].power_up.power_type);
        }
        i = i + 1;
    }
    None
}

/// The state that the player's collision handler works on.
pub struct Encounter {
    pub game: GameData,
    pub player: Player,
    /// The entities that were removed, in order.
    pub despawned: Seq<u64>,
    /// Whether the last life was lost.
    pub game_over: bool,
}

/// The state after one collision event.
///
/// The event counts when one side is the ship, the ship is not invincible and
/// the other side has not been removed. An enemy or an enemy bullet hurts the
/// ship, and the bullet is removed; with no life left the game is over. A
/// power-up is picked up and removed.
pub open spec fn player_event_step(
    state: Encounter,
    player_entity: u64,
    power_ups: Seq<PowerUpUnit>,
    event: CollisionEvent,
) -> Encounter {
    if event.layer_a != CollisionLayer::Player && event.layer_b != CollisionLayer::Player {
        state
    } else {
        let a_is_player = event.layer_a == CollisionLayer::Player;
        let me = if a_is_player {
            event.entity_a
        } else {
            event.entity_b
        };
        let other = if a_is_player {
            event.entity_b
        } else {
            event.entity_a
        };
        let other_layer = if a_is_player {
            event.layer_b
        } else {
            event.layer_a
        };
        if me != player_entity || state.player.invincible || state.despawned.contains(other) {
            state
        } else if other_layer == CollisionLayer::Enemy || other_layer == CollisionLayer::EnemyBullet {
            let game = hurt(state.game);
            Encounter {
                game,
                player: shaken(state.player, state.game),
                despawned: if other_layer == CollisionLayer::EnemyBullet {
                    state.despawned.push(other)
                } else {
                    state.despawned
                },
                game_over: state.game_over || game.lives == 0,
            }
        } else if other_layer == CollisionLayer::PowerUp {
            Encounter {
                game: collected(state.game, find_power_up(power_ups, other, 0)),
                despawned: state.despawned.push(other),
                ..state
            }
        } else {
            state
        }
    }
}

/// The state after the first `count` of `events`, in order.
pub open spec fn player_events(
    state: Encounter,
    player_entity: u64,
    power_ups: Seq<PowerUpUnit>,
    events: Seq<CollisionEvent>,
    count: int,
) -> Encounter
    decreases count,
{
    if count <= 0 {
        state
    } else {
        player_event_step(
            player_events(state, player_entity, power_ups, events, count - 1),
            player_entity,
            power_ups,
            events[count - 1],
        )
    }
}

/// What a frame's collisions of the ship brought about.
#[derive(Debug)]
pub struct EncounterReport {
    /// The entities to remove: enemy bullets that hit and power-ups that were picked up.
    pub despawned: Vec<u64>,
    /// Whether the last life was lost.
    pub game_over: bool,
}

fn list_contains(list: &Vec<u64>, entity: u64) -> (found: bool)
    ensures
        found == list@.contains(entity),
{
    let mut i: usize = 0;
    while i < list.len()
        invariant
            i <= list@.len(),
            forall|k: int| 0 <= k < i ==> list@[k] != entity,
        decreases list@.len() - i,
    {
        if list[i] == entity {
            return true;
        }
        i = i + 1;
    }
    false
}

/// Resolves a frame's collision events for the ship, in order.
pub fn player_collision_handler(
    events: &Vec<CollisionEvent>,
    game: &mut GameData,
    player_entity: u64,
    player: &mut Player,
    power_ups: &Vec<PowerUpUnit>,
) -> (report: EncounterReport)
    requires
        old(game).coins + events@.len() <= u32::MAX,
    ensures
        (Encounter {
            game: *final(game),
            player: *final(player),
            despawned: report.despawned@,
            game_over: report.game_over,
        }) == player_events(
            Encounter { game: *old(game), player: *old(player), despawned: Seq::empty(), game_over: false },
            player_entity,
            power_ups@,
            events@,
            events@.len() as int,
        ),
{
    let mut despawned: Vec<u64> = Vec::new();
    let mut game_over = false;
    let ghost start = Encounter { game: *game, player: *player, despawned: Seq::empty(), game_over: false };
    let mut k: usize = 0;
    while k < events.len()
        invariant
            k <= events@.len(),
            game.coins + (events@.len() - k) <= u32::MAX,
            (Encounter { game: *game, player: *player, despawned: despawned@, game_over }) == player_events(
                start,
                player_entity,
                power_ups@,
                events@,
                k as int,
            ),
        decreases events@.len() - k,
    {
        let event = events[k];
        k = k + 1;
        if event.layer_a != CollisionLayer::Player && event.layer_b != CollisionLayer::Player {
            continue ;
        }
        let a_is_player = event.layer_a == CollisionLayer::Player;
        let me = if a_is_player {
            event.entity_a
        } else {
            event.entity_b
        };
        let other = if a_is_player {
            event.entity_b
        } else {
            event.entity_a
        };
        let other_layer = if a_is_player {
            event.layer_b
        } else {
            event.layer_a
        };
        if me != player_entity || player.invincible || list_contains(&despawned, other) {
            continue ;
        }
        match other_layer {
            CollisionLayer::Enemy | CollisionLayer::EnemyBullet => {
                take_hit(player, game);
                if other_layer == CollisionLayer::EnemyBullet {
                    despawned.push(other);
                }
                if game.lives == 0 {
                    game_over = true;
                }
            },
            CollisionLayer::PowerUp => {
                collect(game, power_up_kind(power_ups, other));
                despawned.push(other);
            },
            _ => {},
        }
    }
    EncounterReport { despawned, game_over }
}

/// The ship after a frame of `delta` microseconds: its time of invincibility
/// runs down and ends at zero.
pub open spec fn invincibility_after(player: Player, delta: int) -> Player {
    if !player.invincible {
        player
    } else if player.invincible_timer - delta <= 0 {
        Player { invincible: false, invincible_timer: (player.invincible_timer - delta) as i64, ..player }
    } else {
        Player { invincible_timer: (player.invincible_timer - delta) as i64, ..player }
    }
}

/// Whether the ship is drawn: an invincible ship blinks, ten times a second.
pub open spec fn drawn(player: Player) -> bool {
    !player.invincible || player.invincible_timer / 100_000 % 2 == 0
}

/// Lets the time of invincibility run down. Returns whether the ship is drawn this frame.
pub fn update_invincibility(player: &mut Player, delta: u32) -> (visible: bool)
    requires
        old(player).invincible_timer - delta >= i64::MIN,
    ensures
        *final(player) == invincibility_after(*old(player), delta as int),
        visible == drawn(*final(player)),
{
    if player.invincible {
        player.invincible_timer -= delta as i64;
        if player.invincible_timer <= 0 {
            player.invincible = false;
            true
        } else {
            player.invincible_timer / 100_000 % 2 == 0
        }
    } else {
        true
    }
}

/// The nearest place to `position` at which the ship may be: no closer than
/// 30 pixels to any edge of the window.
pub open spec fn kept_in_window(config: GameConfig, position: Vec2D) -> Vec2D {
    let half_width = config.window_width / 2 - PLAYER_MARGIN;
    let half_height = config.window_height / 2 - PLAYER_MARGIN;
    Vec2D {
        x: clamp(position.x as int, -half_width, half_width) as i32,
        y: clamp(position.y as int, -half_height, half_height) as i32,
    }
}

/// Moves `position` back into the part of the window in which the ship may be.
pub fn clamp_to_window(config: &GameConfig, position: Vec2D) -> (kept: Vec2D)
    requires
        config.wf(),
        config.window_height / 2 >= PLAYER_MARGIN,
    ensures
        kept == kept_in_window(*config, position),
{
    let half_width = (config.window_width / 2 - PLAYER_MARGIN) as i32;
    let half_height = (config.window_height / 2 - PLAYER_MARGIN) as i32;
    let x = if position.x < -half_width {
        -half_width
    } else if position.x > half_width {
        half_width
    } else {
        position.x
    };
    let y = if position.y < -half_height {
        -half_height
    } else if position.y > half_height {
        half_height
    } else {
        position.y
    };
    Vec2D { x, y }
}

/// What the pointer is doing: whether it is held down, and where it was last.
#[derive(Clone, Copy, PartialEq, Eq, Structural, Debug)]
pub struct DragState {
    pub dragging: bool,
    pub last_position: Option<Vec2D>,
}

impl Default for DragState {
    fn default() -> (state: DragState)
        ensures
            state == (DragState { dragging: false, last_position: None }),
    {
        DragState { dragging: false, last_position: None }
    }
}

/// A place on the screen, counted from its top left corner with `y` downwards,
/// as a place in the world, counted from the middle with `y` upwards.
pub open spec fn in_world(width: int, height: int, screen: Vec2D) -> (int, int) {
    (screen.x - width / 2, height / 2 - screen.y)
}

impl DragState {
    /// The way that the pointer dragged the ship since the last frame: while
    /// the pointer is held down, the difference between where it is and where
    /// it was, in the world; else nothing.
    pub open spec fn drag(self, pointer: Option<Vec2D>) -> (int, int) {
        match (pointer, self.last_position) {
            (Some(now), Some(last)) => if self.dragging {
                (now.x - last.x, last.y - now.y)
            } else {
                (0, 0)
            },
            _ => (0, 0),
        }
    }

    /// The state after a frame in which the pointer was at `pointer`, or not held down.
    pub open spec fn after(self, pointer: Option<Vec2D>) -> DragState {
        DragState { dragging: pointer is Some, last_position: pointer }
    }

    /// Notes where the pointer is on the screen. Returns the way that it
    /// dragged the ship, kept within the range of coordinates.
    pub fn update(&mut self, pointer: Option<Vec2D>) -> (drag: Vec2D)
        ensures
            *final(self) == old(self).after(pointer),
            drag.x == clamp(old(self).drag(pointer).0, i32::MIN as int, i32::MAX as int),
            drag.y == clamp(old(self).drag(pointer).1, i32::MIN as int, i32::MAX as int),
    {
        let drag = match (pointer, self.last_position) {
            (Some(now), Some(last)) => {
                if self.dragging {
                    let x = now.x as i64 - last.x as i64;
                    let y = last.y as i64 - now.y as i64;
                    Vec2D {
                        x: if x < i32::MIN as i64 {
                            i32::MIN
                        } else if x > i32::MAX as i64 {
                            i32::MAX
                        } else {
                            x as i32
                        },
                        y: if y < i32::MIN as i64 {
                            i32::MIN
                        } else if y > i32::MAX as i64 {
                            i32::MAX
                        } else {
                            y as i32
                        },
                    }
                } else {
                    Vec2D { x: 0, y: 0 }
                }
            },
            _ => Vec2D { x: 0, y: 0 },
        };
        self.dragging = pointer.is_some();
        self.last_position = pointer;
        drag
    }
}

/// The difference of two places on the screen is the same in the world, with `y` turned round.
pub proof fn lemma_drag_in_world(width: int, height: int, now: Vec2D, last: Vec2D)
    ensures
        in_world(width, height, now).0 - in_world(width, height, last).0 == now.x - last.x,
        in_world(width, height, now).1 - in_world(width, height, last).1 == last.y - now.y,
{
}

/// Where the ship is after it was dragged by `drag`: the sum, kept in the window.
pub open spec fn dragged(config: GameConfig, position: Vec2D, drag: Vec2D) -> Vec2D {
    kept_in_window(
        config,
        Vec2D {
            x: clamp(position.x + drag.x, i32::MIN as int, i32::MAX as int) as i32,
            y: clamp(position.y + drag.y, i32::MIN as int, i32::MAX as int) as i32,
        },
    )
}

/// Moves the ship by what the pointer moved since the last frame.
pub fn player_touch_movement(config: &GameConfig, position: Vec2D, drag: Vec2D) -> (moved: Vec2D)
    requires
        config.wf(),
        config.window_height / 2 >= PLAYER_MARGIN,
    ensures
        moved == dragged(*config, position, drag),
{
    let x = position.x as i64 + drag.x as i64;
    let y = position.y as i64 + drag.y as i64;
    let x = if x < i32::MIN as i64 {
        i32::MIN
    } else if x > i32::MAX as i64 {
        i32::MAX
    } else {
        x as i32
    };
    let y = if y < i32::MIN as i64 {
        i32::MIN
    } else if y > i32::MAX as i64 {
        i32::MAX
    } else {
        y as i32
    };
    clamp_to_window(config, Vec2D { x, y })
}

/// The ship to bring into the world.
#[derive(Clone, Copy, PartialEq, Eq, Structural, Debug)]
pub struct PlayerSpawn {
    pub position: Vec2D,
    pub player: Player,
    pub blueprint: Blueprint,
    /// Its collider: the circle of its outline, on the ship's layer,
    /// reacting to enemies, enemy bullets and power-ups.
    pub hitbox: Hitbox,
}

/// The ship as it appears: in the middle, a third of the window's height
/// below it, vulnerable, at the configured speed.
pub open spec fn player_spawn(config: GameConfig) -> PlayerSpawn {
    PlayerSpawn {
        position: Vec2D { x: 0, y: -(config.window_height as int / 3) as i32 },
        player: Player { speed: config.player_speed, invincible: false, invincible_timer: 0 },
        blueprint: Blueprint::PlayerRaidenMk1,
        hitbox: hitbox_on(CollisionLayer::Player, Blueprint::PlayerRaidenMk1.radius()),
    }
}

/// Where and how the ship appears.
pub fn spawn_player(config: &GameConfig) -> (spawn: PlayerSpawn)
    requires
        config.wf(),
    ensures
        spawn == player_spawn(*config),
{
    PlayerSpawn {
        position: Vec2D { x: 0, y: -((config.window_height / 3) as i32) },
        player: Player { speed: config.player_speed, invincible: false, invincible_timer: 0 },
        blueprint: Blueprint::PlayerRaidenMk1,
        hitbox: Hitbox::on(CollisionLayer::Player, Blueprint::PlayerRaidenMk1.collision_radius()),
    }
}

/// The velocity of the ship under the keys: its speed in the direction of the
/// keys held, diagonal directions included. `x` and `y` are -1, 0 or 1.
pub open spec fn key_velocity(x: int, y: int, speed: int) -> Vec2D {
    scaled_to(Vec2D { x: (1000 * x) as i32, y: (1000 * y) as i32 }, speed)
}

/// Moves the ship under the keys for one frame. With no key held it stays where it is.
pub fn player_keyboard_movement(
    config: &GameConfig,
    player: &Player,
    position: Vec2D,
    x: i8,
    y: i8,
    delta: u32,
) -> (moved: Vec2D)
    requires
        config.wf(),
        config.window_height / 2 >= PLAYER_MARGIN,
        player.speed <= i32::MAX,
        -1 <= x <= 1,
        -1 <= y <= 1,
    ensures
        moved == if x == 0 && y == 0 {
            position
        } else {
            kept_in_window(*config, advanced(position, key_velocity(x as int, y as int, player.speed as int), delta as int))
        },
{
    if x == 0 && y == 0 {
        return position;
    }
    let velocity = scale_to(Vec2D { x: 1000 * (x as i32), y: 1000 * (y as i32) }, player.speed);
    clamp_to_window(config, advance(position, velocity, delta))
}

/// With no shield and one life left, a hit ends the game; with any shield
/// left, a hit costs no life and leaves the ship vulnerable.
pub proof fn lemma_shield_first(game: GameData, player: Player)
    ensures
        game.shield > 0 ==> hurt(game).lives == game.lives && hurt(game).shield == game.shield - 1 && shaken(
            player,
            game,
        ) == player,
        game.shield == 0 && game.lives > 0 ==> hurt(game).lives == game.lives - 1 && shaken(player, game).invincible,
        game.shield == 0 && game.lives == 1 ==> hurt(game).lives == 0,
{
}

} // verus!
