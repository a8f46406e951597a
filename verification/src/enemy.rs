//! Enemies: their kinds, how difficulty scales them, how waves are drawn, and
//! what damage does to them.

use vstd::prelude::*;
use crate::blueprints::Blueprint;
use crate::collision::{hitbox_on, CollisionLayer, Hitbox};
use crate::geometry::Vec2D;
use crate::random::{roll_range, roll_ratio};
use crate::states::{max_int, min_int, GameConfig, GameData, SPAWN_MARGIN};

verus! {

/// The six kinds of enemy; the last three are elites.
#[derive(Clone, Copy, PartialEq, Eq, Structural, Debug)]
pub enum EnemyType {
    Diamond,
    Hexagon,
    Small,
    EliteScout,
    EliteGunship,
    EliteGuard,
}

/// Shortest time between two shots of an enemy, in microseconds.
pub const MIN_SHOOT_INTERVAL: u32 = 500_000;

/// Shortest time between two waves, in microseconds.
pub const MIN_SPAWN_INTERVAL: u64 = 300_000;

impl EnemyType {
    /// Elites are slow, tough and fire dense volleys.
    pub open spec fn elite(self) -> bool {
        self == EnemyType::EliteScout || self == EnemyType::EliteGunship || self == EnemyType::EliteGuard
    }

    /// Health at difficulty 100.
    pub open spec fn health_base(self) -> int {
        match self {
            EnemyType::Diamond => 2,
            EnemyType::Hexagon => 5,
            EnemyType::Small => 1,
            EnemyType::EliteScout => 10,
            EnemyType::EliteGunship => 14,
            EnemyType::EliteGuard => 18,
        }
    }

    /// Score at difficulty 100.
    pub open spec fn score_base(self) -> int {
        match self {
            EnemyType::Diamond => 100,
            EnemyType::Hexagon => 300,
            EnemyType::Small => 50,
            EnemyType::EliteScout => 900,
            EnemyType::EliteGunship => 1200,
            EnemyType::EliteGuard => 1500,
        }
    }

    /// Time between two shots at difficulty 100, in microseconds.
    pub open spec fn shoot_interval_base(self) -> int {
        match self {
            EnemyType::Diamond => 2_000_000,
            EnemyType::Hexagon => 1_500_000,
            EnemyType::Small => 2_600_000,
            EnemyType::EliteScout => 2_800_000,
            EnemyType::EliteGunship => 3_200_000,
            EnemyType::EliteGuard => 3_600_000,
        }
    }

    /// The outline of the kind. Diamonds and hexagons come in two outlines;
    /// `alternate` picks the second.
    pub open spec fn outline(self, alternate: bool) -> Blueprint {
        match self {
            EnemyType::Diamond => if alternate {
                Blueprint::DefaultEnemy
            } else {
                Blueprint::RaidenEnemyDroneSmall
            },
            EnemyType::Hexagon => if alternate {
                Blueprint::HexagonEnemy
            } else {
                Blueprint::RaidenEnemyTank
            },
            EnemyType::Small => Blueprint::RaidenEnemyDroneSmall,
            EnemyType::EliteScout => Blueprint::EliteScout,
            EnemyType::EliteGunship => Blueprint::EliteGunship,
            EnemyType::EliteGuard => Blueprint::EliteGuard,
        }
    }

    pub fn is_elite(&self) -> (elite: bool)
        ensures
            elite == self.elite(),
    {
        match self {
            EnemyType::EliteScout | EnemyType::EliteGunship | EnemyType::EliteGuard => true,
            _ => false,
        }
    }

    pub fn base_health(&self) -> (health: u32)
        ensures
            health == self.health_base(),
    {
        match self {
            EnemyType::Diamond => 2,
            EnemyType::Hexagon => 5,
            EnemyType::Small => 1,
            EnemyType::EliteScout => 10,
            EnemyType::EliteGunship => 14,
            EnemyType::EliteGuard => 18,
        }
    }

    pub fn base_score(&self) -> (score: u32)
        ensures
            score == self.score_base(),
    {
        match self {
            EnemyType::Diamond => 100,
            EnemyType::Hexagon => 300,
            EnemyType::Small => 50,
            EnemyType::EliteScout => 900,
            EnemyType::EliteGunship => 1200,
            EnemyType::EliteGuard => 1500,
        }
    }

    pub fn base_shoot_interval(&self) -> (interval: u32)
        ensures
            interval == self.shoot_interval_base(),
    {
        match self {
            EnemyType::Diamond => 2_000_000,
            EnemyType::Hexagon => 1_500_000,
            EnemyType::Small => 2_600_000,
            EnemyType::EliteScout => 2_800_000,
            EnemyType::EliteGunship => 3_200_000,
            EnemyType::EliteGuard => 3_600_000,
        }
    }

    pub fn blueprint(&self, alternate: bool) -> (blueprint: Blueprint)
        ensures
            blueprint == self.outline(alternate),
    {
        match self {
            EnemyType::Diamond => if alternate {
                Blueprint::DefaultEnemy
            } else {
                Blueprint::RaidenEnemyDroneSmall
            },
            EnemyType::Hexagon => if alternate {
                Blueprint::HexagonEnemy
            } else {
                Blueprint::RaidenEnemyTank
            },
            EnemyType::Small => Blueprint::RaidenEnemyDroneSmall,
            EnemyType::EliteScout => Blueprint::EliteScout,
            EnemyType::EliteGunship => Blueprint::EliteGunship,
            EnemyType::EliteGuard => Blueprint::EliteGuard,
        }
    }
}

/// What an enemy is at the moment.
#[derive(Clone, Copy, PartialEq, Eq, Structural, Debug)]
pub struct Enemy {
    pub health: i32,
    pub max_health: i32,
    pub score_value: u32,
    pub enemy_type: EnemyType,
    /// Time until the next shot, in microseconds.
    pub shoot_timer: i64,
    /// Time between two shots, in microseconds.
    pub shoot_interval: u32,
}

/// How an enemy moves.
#[derive(Clone, Copy, PartialEq, Eq, Structural, Debug)]
pub enum EnemyMovement {
    /// Straight down.
    Straight { speed: u32 },
    /// Down, swaying sideways. The frequency is in angle units per second, the
    /// time in microseconds.
    Sine { speed: u32, amplitude: u32, frequency: u32, time: u64 },
    /// Down; the turn speed is kept for the host.
    Homing { speed: u32, turn_speed: u32 },
    /// Down to a height, then at rest.
    Stationary { target_y: i32 },
}

/// Difficulty at a player level, in percent: 100 at level 1 and 30 more for each level after it.
pub open spec fn difficulty_at(level: int) -> int {
    100 + 30 * (level - 1)
}

/// Health of an enemy: the base health times the difficulty, rounded up.
pub open spec fn scaled_health(base: int, difficulty: int) -> int {
    min_int((base * difficulty + 99) / 100, i32::MAX as int)
}

/// Score of an enemy: the base score times the difficulty, rounded down.
pub open spec fn scaled_score(base: int, difficulty: int) -> int {
    min_int(base * difficulty / 100, u32::MAX as int)
}

/// Time between two shots: the base time divided by the difficulty, and no
/// less than half a second. At difficulty 0 the enemy never shoots again.
pub open spec fn scaled_shoot_interval(base: int, difficulty: int) -> int {
    if difficulty == 0 {
        u32::MAX as int
    } else {
        max_int(base * 100 / difficulty, MIN_SHOOT_INTERVAL as int)
    }
}

/// Factor on an enemy's speed, in thousandths: half of what the difficulty
/// adds to 100 percent is added to the speed; an elite moves at a fifth of that.
pub open spec fn speed_factor(difficulty: int, elite: bool) -> int {
    if elite {
        100 + difficulty
    } else {
        500 + 5 * difficulty
    }
}

/// A base speed times two factors in thousandths, rounded down, at most `u32::MAX`.
pub open spec fn scaled_speed(base: int, permille: int, factor: int) -> int {
    min_int(base * permille * factor / 1_000_000, u32::MAX as int)
}

/// Difficulty at a player level, in percent.
pub fn difficulty_for_level(level: u32) -> (difficulty: u64)
    ensures
        difficulty == difficulty_at(level as int),
{
    70 + 30 * (level as u64)
}

/// Upper bound of the difficulties that the scaling functions take.
pub const MAX_DIFFICULTY: u64 = 1_000_000_000_000;

fn scale_speed(base: u32, permille: u32, factor: u64) -> (speed: u32)
    requires
        permille <= 1200,
        factor <= 500 + 5 * MAX_DIFFICULTY,
    ensures
        speed == scaled_speed(base as int, permille as int, factor as int),
{
    assert(base * permille <= 0xffff_ffff * 1200) by (nonlinear_arith)
        requires
            base <= 0xffff_ffff,
            permille <= 1200,
    ;
    let a: u128 = base as u128 * permille as u128;
    assert(a * factor <= 0xffff_ffff * 1200 * (500 + 5 * 1_000_000_000_000)) by (nonlinear_arith)
        requires
            0 <= a <= 0xffff_ffff * 1200,
            0 <= factor <= 500 + 5 * 1_000_000_000_000,
    ;
    let product: u128 = a * factor as u128 / 1_000_000;
    if product > u32::MAX as u128 {
        u32::MAX
    } else {
        product as u32
    }
}

/// The draws that shape one enemy.
#[derive(Clone, Copy, PartialEq, Eq, Structural, Debug)]
pub struct SpawnRolls {
    /// Picks the second outline of a diamond or a hexagon.
    pub alternate: bool,
    /// Movement pattern: 0 straight at a drawn speed, 1 swaying, else straight.
    pub pattern: u32,
    /// Factor on the speed of pattern 0, in thousandths.
    pub speed_permille: u32,
    /// Sideways reach of pattern 1.
    pub amplitude: u32,
    /// Frequency of pattern 1: one to three radians per second.
    pub frequency: u32,
    /// Time until the first shot.
    pub shoot_timer: u32,
}

impl SpawnRolls {
    /// Every draw lies in its range; the first shot comes within `shoot_interval`.
    pub open spec fn valid(self, shoot_interval: int) -> bool {
        &&& self.pattern < 3
        &&& 800 <= self.speed_permille < 1200
        &&& 50_000 <= self.amplitude < 150_000
        &&& 57_296 <= self.frequency < 171_887
        &&& self.shoot_timer < shoot_interval
    }
}

/// An enemy to bring into the world.
#[derive(Clone, Copy, PartialEq, Eq, Structural, Debug)]
pub struct EnemySpawn {
    pub position: Vec2D,
    pub blueprint: Blueprint,
    /// Its collider: the circle of its outline, on the enemy layer, reacting to the ship and its bullets.
    pub hitbox: Hitbox,
    pub enemy: Enemy,
    pub movement: EnemyMovement,
}

/// The enemy of kind `enemy_type` at `difficulty` that the draws `rolls` give.
pub open spec fn enemy_spawn(
    config: GameConfig,
    position: Vec2D,
    enemy_type: EnemyType,
    difficulty: int,
    rolls: SpawnRolls,
) -> EnemySpawn {
    let health = scaled_health(enemy_type.health_base(), difficulty) as i32;
    let factor = speed_factor(difficulty, enemy_type.elite());
    EnemySpawn {
        position,
        blueprint: enemy_type.outline(rolls.alternate),
        hitbox: hitbox_on(CollisionLayer::Enemy, enemy_type.outline(rolls.alternate).radius()),
        enemy: Enemy {
            health,
            max_health: health,
            score_value: scaled_score(enemy_type.score_base(), difficulty) as u32,
            enemy_type,
            shoot_timer: rolls.shoot_timer as i64,
            shoot_interval: scaled_shoot_interval(enemy_type.shoot_interval_base(), difficulty) as u32,
        },
        movement: if rolls.pattern == 0 {
            EnemyMovement::Straight {
                speed: scaled_speed(config.enemy_base_speed as int, rolls.speed_permille as int, factor) as u32,
            }
        } else if rolls.pattern == 1 {
            EnemyMovement::Sine {
                speed: scaled_speed(config.enemy_base_speed as int, 800, factor) as u32,
                amplitude: rolls.amplitude,
                frequency: rolls.frequency,
                time: 0,
            }
        } else {
            EnemyMovement::Straight { speed: scaled_speed(config.enemy_base_speed as int, 1000, factor) as u32 }
        },
    }
}

/// Time between two shots of an enemy of kind `enemy_type` at `difficulty`.
pub fn shoot_interval_for(enemy_type: EnemyType, difficulty: u64) -> (interval: u32)
    requires
        difficulty <= MAX_DIFFICULTY,
    ensures
        interval == scaled_shoot_interval(enemy_type.shoot_interval_base(), difficulty as int),
        interval >= MIN_SHOOT_INTERVAL,
{
    if difficulty == 0 {
        u32::MAX
    } else {
        let quotient = enemy_type.base_shoot_interval() as u64 * 100 / difficulty;
        if quotient < MIN_SHOOT_INTERVAL as u64 {
            MIN_SHOOT_INTERVAL
        } else {
            quotient as u32
        }
    }
}

/// Health of an enemy of kind `enemy_type` at `difficulty`.
pub fn health_for(enemy_type: EnemyType, difficulty: u64) -> (health: i32)
    requires
        difficulty <= MAX_DIFFICULTY,
    ensures
        health == scaled_health(enemy_type.health_base(), difficulty as int),
{
    let base = enemy_type.base_health() as u64;
    assert(base * difficulty <= 18 * MAX_DIFFICULTY) by (nonlinear_arith)
        requires
            0 <= base <= 18,
            0 <= difficulty <= MAX_DIFFICULTY,
    ;
    let scaled = (base * difficulty + 99) / 100;
    if scaled > i32::MAX as u64 {
        i32::MAX
    } else {
        scaled as i32
    }
}

/// Score of an enemy of kind `enemy_type` at `difficulty`.
pub fn score_for(enemy_type: EnemyType, difficulty: u64) -> (score: u32)
    requires
        difficulty <= MAX_DIFFICULTY,
    ensures
        score == scaled_score(enemy_type.score_base(), difficulty as int),
{
    let base = enemy_type.base_score() as u64;
    assert(base * difficulty <= 1500 * MAX_DIFFICULTY) by (nonlinear_arith)
        requires
            0 <= base <= 1500,
            0 <= difficulty <= MAX_DIFFICULTY,
    ;
    let scaled = base * difficulty / 100;
    if scaled > u32::MAX as u64 {
        u32::MAX
    } else {
        scaled as u32
    }
}

/// Builds the enemy that the draws `rolls` give.
pub fn build_enemy(
    config: &GameConfig,
    position: Vec2D,
    enemy_type: EnemyType,
    difficulty: u64,
    rolls: SpawnRolls,
) -> (spawn: EnemySpawn)
    requires
        difficulty <= MAX_DIFFICULTY,
        rolls.speed_permille <= 1200,
    ensures
        spawn == enemy_spawn(*config, position, enemy_type, difficulty as int, rolls),
{
    let health = health_for(enemy_type, difficulty);
    let factor: u64 = if enemy_type.is_elite() {
        100 + difficulty
    } else {
        500 + 5 * difficulty
    };
    let movement = if rolls.pattern == 0 {
        EnemyMovement::Straight { speed: scale_speed(config.enemy_base_speed, rolls.speed_permille, factor) }
    } else if rolls.pattern == 1 {
        EnemyMovement::Sine {
            speed: scale_speed(config.enemy_base_speed, 800, factor),
            amplitude: rolls.amplitude,
            frequency: rolls.frequency,
            time: 0,
        }
    } else {
        EnemyMovement::Straight { speed: scale_speed(config.enemy_base_speed, 1000, factor) }
    };
    let blueprint = enemy_type.blueprint(rolls.alternate);
    EnemySpawn {
        position,
        blueprint,
        hitbox: Hitbox::on(CollisionLayer::Enemy, blueprint.collision_radius()),
        enemy: Enemy {
            health,
            max_health: health,
            score_value: score_for(enemy_type, difficulty),
            enemy_type,
            shoot_timer: rolls.shoot_timer as i64,
            shoot_interval: shoot_interval_for(enemy_type, difficulty),
        },
        movement,
    }
}

/// Draws the shape of one enemy: the outline (35 in 100 for the second
/// diamond, 50 in 100 for the second hexagon), the movement pattern and its
/// parameters, and the time until the first shot.
pub fn roll_spawn(enemy_type: EnemyType, shoot_interval: u32) -> (rolls: SpawnRolls)
    requires
        shoot_interval > 0,
    ensures
        rolls.valid(shoot_interval as int),
{
    let alternate = match enemy_type {
        EnemyType::Diamond => roll_ratio(35, 100),
        EnemyType::Hexagon => roll_ratio(50, 100),
        _ => false,
    };
    let pattern = roll_range(0, 3) as u32;
    let speed_permille = roll_range(800, 1200) as u32;
    let amplitude = roll_range(50_000, 150_000) as u32;
    let frequency = roll_range(57_296, 171_887) as u32;
    let shoot_timer = roll_range(0, shoot_interval as i64) as u32;
    SpawnRolls { alternate, pattern, speed_permille, amplitude, frequency, shoot_timer }
}

/// Makes an enemy of kind `enemy_type` at `difficulty`: its health, score,
/// shooting interval and speed follow from the difficulty; its outline,
/// movement and first shot are drawn.
pub fn spawn_enemy_with_difficulty(
    config: &GameConfig,
    position: Vec2D,
    enemy_type: EnemyType,
    difficulty: u64,
) -> (spawn: EnemySpawn)
    requires
        difficulty <= MAX_DIFFICULTY,
    ensures
        exists|rolls: SpawnRolls|
            #![trigger rolls.valid(scaled_shoot_interval(enemy_type.shoot_interval_base(), difficulty as int))]
            rolls.valid(scaled_shoot_interval(enemy_type.shoot_interval_base(), difficulty as int)) && spawn
                == enemy_spawn(*config, position, enemy_type, difficulty as int, rolls),
{
    let interval = shoot_interval_for(enemy_type, difficulty);
    let rolls = roll_spawn(enemy_type, interval);
    let spawn = build_enemy(config, position, enemy_type, difficulty, rolls);
    assert(rolls.valid(scaled_shoot_interval(enemy_type.shoot_interval_base(), difficulty as int)));
    spawn
}

/// Makes an enemy of kind `enemy_type` at difficulty 100.
pub fn spawn_enemy(config: &GameConfig, position: Vec2D, enemy_type: EnemyType) -> (spawn: EnemySpawn)
    ensures
        exists|rolls: SpawnRolls|
            #![trigger rolls.valid(scaled_shoot_interval(enemy_type.shoot_interval_base(), 100))]
            rolls.valid(scaled_shoot_interval(enemy_type.shoot_interval_base(), 100)) && spawn == enemy_spawn(
                *config,
                position,
                enemy_type,
                100,
                rolls,
            ),
{
    spawn_enemy_with_difficulty(config, position, enemy_type, 100)
}

/// A diamond (base health 2, base score 100) at player level 7, where the
/// difficulty is 280 percent, has health 6 and is worth 280.
pub proof fn lemma_diamond_at_level_seven()
    ensures
        difficulty_at(7) == 280,
        scaled_health(EnemyType::Diamond.health_base(), difficulty_at(7)) == 6,
        scaled_score(EnemyType::Diamond.score_base(), difficulty_at(7)) == 280,
{
}

/// Whatever is drawn, a spawned enemy is on the enemy layer and reacts to the
/// ship and to the ship's bullets, and to nothing else.
pub proof fn lemma_enemy_collider(
    config: GameConfig,
    position: Vec2D,
    enemy_type: EnemyType,
    difficulty: int,
    rolls: SpawnRolls,
)
    ensures
        ({
            let collider = enemy_spawn(config, position, enemy_type, difficulty, rolls).hitbox.as_collider();
            &&& collider.layer == CollisionLayer::Enemy
            &&& forall|layer: CollisionLayer|
                collider.mask.permits(layer) <==> (layer == CollisionLayer::Player || layer
                    == CollisionLayer::PlayerBullet)
        }),
{
}

/// Scaling is determined by kind and difficulty alone, and whatever is drawn,
/// the enemy starts at full health, with the health, score and shooting interval of its kind.
pub proof fn lemma_scaling_ignores_draws(
    config: GameConfig,
    position: Vec2D,
    enemy_type: EnemyType,
    difficulty: int,
    a: SpawnRolls,
    b: SpawnRolls,
)
    ensures
        enemy_spawn(config, position, enemy_type, difficulty, a).enemy.health == enemy_spawn(
            config,
            position,
            enemy_type,
            difficulty,
            b,
        ).enemy.health,
        enemy_spawn(config, position, enemy_type, difficulty, a).enemy.max_health == enemy_spawn(
            config,
            position,
            enemy_type,
            difficulty,
            a,
        ).enemy.health,
        enemy_spawn(config, position, enemy_type, difficulty, a).enemy.score_value == enemy_spawn(
            config,
            position,
            enemy_type,
            difficulty,
            b,
        ).enemy.score_value,
        enemy_spawn(config, position, enemy_type, difficulty, a).enemy.shoot_interval == enemy_spawn(
            config,
            position,
            enemy_type,
            difficulty,
            b,
        ).enemy.shoot_interval,
{
}

/// The draws that pick the kind of a wave's first enemy.
#[derive(Clone, Copy, PartialEq, Eq, Structural, Debug)]
pub struct TypeRolls {
    /// During a boss fight: a small enemy rather than a diamond (70 in 100).
    pub small: bool,
    /// An elite (see `elite_chance`).
    pub elite: bool,
    /// Which elite: 0 the scout, 1 the gunship, else the guard.
    pub elite_pick: u32,
    /// A diamond (what `hexagon_chance` and the 15 in 100 of a small enemy leave).
    pub diamond: bool,
    /// Of the rest, a hexagon rather than a small enemy.
    pub hexagon: bool,
}

/// Chance of an elite, in thousandths: 20 and 3 more for each level, at most 80.
pub open spec fn elite_chance(level: int) -> int {
    min_int(20 + 3 * level, 80)
}

/// Chance of a hexagon, in hundredths: 20 and 2 more for each level, at most 50.
pub open spec fn hexagon_chance(level: int) -> int {
    min_int(20 + 2 * level, 50)
}

/// Chance of a small enemy outside boss fights, in hundredths.
pub const SMALL_CHANCE: u32 = 15;

/// The kind that the draws pick. During a boss fight only small enemies and
/// diamonds appear; elites appear from level 3 on.
pub open spec fn chosen_type(level: int, boss_active: bool, rolls: TypeRolls) -> EnemyType {
    if boss_active {
        if rolls.small {
            EnemyType::Small
        } else {
            EnemyType::Diamond
        }
    } else if level >= 3 && rolls.elite {
        if rolls.elite_pick == 0 {
            EnemyType::EliteScout
        } else if rolls.elite_pick == 1 {
            EnemyType::EliteGunship
        } else {
            EnemyType::EliteGuard
        }
    } else if rolls.diamond {
        EnemyType::Diamond
    } else if rolls.hexagon {
        EnemyType::Hexagon
    } else {
        EnemyType::Small
    }
}

/// The kind that the draws pick.
pub fn choose_enemy_type(level: u32, boss_active: bool, rolls: TypeRolls) -> (enemy_type: EnemyType)
    ensures
        enemy_type == chosen_type(level as int, boss_active, rolls),
{
    if boss_active {
        if rolls.small {
            EnemyType::Small
        } else {
            EnemyType::Diamond
        }
    } else if level >= 3 && rolls.elite {
        if rolls.elite_pick == 0 {
            EnemyType::EliteScout
        } else if rolls.elite_pick == 1 {
            EnemyType::EliteGunship
        } else {
            EnemyType::EliteGuard
        }
    } else if rolls.diamond {
        EnemyType::Diamond
    } else if rolls.hexagon {
        EnemyType::Hexagon
    } else {
        EnemyType::Small
    }
}

/// Chance of an elite at `level`, in thousandths.
pub fn elite_chance_permille(level: u32) -> (chance: u32)
    ensures
        chance == elite_chance(level as int),
        chance <= 80,
{
    if level >= 20 {
        80
    } else {
        20 + 3 * level
    }
}

/// Chance of a hexagon at `level`, in hundredths.
pub fn hexagon_chance_percent(level: u32) -> (chance: u32)
    ensures
        chance == hexagon_chance(level as int),
        20 <= chance <= 50,
{
    if level >= 15 {
        50
    } else {
        20 + 2 * level
    }
}

/// Draws what picks the kind of a wave's first enemy: during a boss fight a
/// small enemy in 70 of 100 cases; else, from level 3 on, an elite with
/// `elite_chance`, and otherwise a diamond, a hexagon or a small enemy.
pub fn roll_type(level: u32, boss_active: bool) -> (rolls: TypeRolls)
    ensures
        rolls.elite_pick < 3,
{
    let mut rolls = TypeRolls { small: false, elite: false, elite_pick: 0, diamond: false, hexagon: false };
    let odds = type_odds_for(level);
    if boss_active {
        rolls.small = roll_ratio(odds.small.hits, odds.small.of);
    } else {
        if level >= 3 {
            rolls.elite = roll_ratio(odds.elite.hits, odds.elite.of);
        }
        if rolls.elite {
            rolls.elite_pick = roll_range(0, 3) as u32;
        } else {
            rolls.diamond = roll_ratio(odds.diamond.hits, odds.diamond.of);
            if !rolls.diamond {
                rolls.hexagon = roll_ratio(odds.hexagon.hits, odds.hexagon.of);
            }
        }
    }
    rolls
}

/// While a boss is fought no elite appears, whatever is drawn; nor does one below level 3.
pub proof fn lemma_elites_held_back(level: int, boss_active: bool, rolls: TypeRolls)
    requires
        boss_active || level < 3,
    ensures
        !chosen_type(level, boss_active, rolls).elite(),
{
}

/// The clock of the spawn director.
#[derive(Clone, Copy, PartialEq, Eq, Structural, Debug)]
pub struct EnemySpawnTimer {
    /// Time since the last wave, in microseconds.
    pub timer: u64,
    /// Time between two waves, in microseconds.
    pub interval: u64,
    /// Difficulty in percent.
    pub difficulty: u64,
}

impl Default for EnemySpawnTimer {
    fn default() -> (timer: EnemySpawnTimer)
        ensures
            timer == (EnemySpawnTimer { timer: 0, interval: 1_500_000, difficulty: 100 }),
    {
        EnemySpawnTimer { timer: 0, interval: 1_500_000, difficulty: 100 }
    }
}

/// Time between two waves: the configured time divided by the difficulty of
/// the level, no less than 0.3 seconds, and doubled while a boss is fought.
pub open spec fn spawn_interval(config: GameConfig, level: int, boss_active: bool) -> int {
    let base = max_int(config.enemy_spawn_interval * 100 / difficulty_at(level), MIN_SPAWN_INTERVAL as int);
    if boss_active {
        2 * base
    } else {
        base
    }
}

/// Time between two waves.
pub fn spawn_interval_for(config: &GameConfig, level: u32, boss_active: bool) -> (interval: u64)
    ensures
        interval == spawn_interval(*config, level as int, boss_active),
        interval >= MIN_SPAWN_INTERVAL,
{
    let difficulty = difficulty_for_level(level);
    let quotient = config.enemy_spawn_interval as u64 * 100 / difficulty;
    let base = if quotient < MIN_SPAWN_INTERVAL {
        MIN_SPAWN_INTERVAL
    } else {
        quotient
    };
    if boss_active {
        2 * base
    } else {
        base
    }
}

impl EnemySpawnTimer {
    /// The clock after a frame of `delta` microseconds: it runs on, and falls
    /// back to zero when the interval is reached.
    pub open spec fn advanced(self, config: GameConfig, level: int, boss_active: bool, delta: int) -> EnemySpawnTimer {
        let interval = spawn_interval(config, level, boss_active);
        EnemySpawnTimer {
            timer: if self.timer + delta >= interval {
                0
            } else {
                (self.timer + delta) as u64
            },
            interval: interval as u64,
            difficulty: self.difficulty,
        }
    }

    /// Whether a wave is due after a frame of `delta` microseconds.
    pub open spec fn due(self, config: GameConfig, level: int, boss_active: bool, delta: int) -> bool {
        self.timer + delta >= spawn_interval(config, level, boss_active)
    }

    /// Advances the clock by one frame and says whether a wave is due.
    pub fn tick(&mut self, config: &GameConfig, level: u32, boss_active: bool, delta: u32) -> (due: bool)
        requires
            old(self).timer + delta <= u64::MAX,
        ensures
            due == old(self).due(*config, level as int, boss_active, delta as int),
            *final(self) == old(self).advanced(*config, level as int, boss_active, delta as int),
    {
        self.timer += delta as u64;
        self.interval = spawn_interval_for(config, level, boss_active);
        if self.timer >= self.interval {
            self.timer = 0;
            true
        } else {
            false
        }
    }
}

/// The draws of one wave.
#[derive(Clone, Copy, PartialEq, Eq, Structural, Debug)]
pub struct WaveRolls {
    pub kind: TypeRolls,
    /// Where the first enemy appears, and its shape.
    pub first_x: i32,
    pub first: SpawnRolls,
    /// A second enemy, a diamond (30 in 100 from level 5 on).
    pub second: bool,
    pub second_x: i32,
    pub second_shape: SpawnRolls,
    /// A third enemy, a small one (20 in 100 from level 10 on).
    pub third: bool,
    pub third_x: i32,
    pub third_shape: SpawnRolls,
}

/// Left end of the band in which enemies appear.
pub open spec fn spawn_left(config: GameConfig) -> int {
    SPAWN_MARGIN - config.window_width / 2
}

/// Right end of the band in which enemies appear; enemies appear left of it.
pub open spec fn spawn_right(config: GameConfig) -> int {
    config.window_width / 2 - SPAWN_MARGIN
}

/// Height at which the first enemy of a wave appears: above the window's top edge.
pub open spec fn spawn_height(config: GameConfig) -> int {
    config.window_height / 2 + SPAWN_MARGIN
}

impl WaveRolls {
    /// Every draw lies in its range.
    pub open spec fn valid(self, config: GameConfig, level: int, boss_active: bool) -> bool {
        let difficulty = difficulty_at(level);
        let first_type = chosen_type(level, boss_active, self.kind);
        &&& self.kind.elite_pick < 3
        &&& spawn_left(config) <= self.first_x < spawn_right(config)
        &&& spawn_left(config) <= self.second_x < spawn_right(config)
        &&& spawn_left(config) <= self.third_x < spawn_right(config)
        &&& self.first.valid(scaled_shoot_interval(first_type.shoot_interval_base(), difficulty))
        &&& self.second_shape.valid(scaled_shoot_interval(EnemyType::Diamond.shoot_interval_base(), difficulty))
        &&& self.third_shape.valid(scaled_shoot_interval(EnemyType::Small.shoot_interval_base(), difficulty))
    }
}

/// The enemies of a wave: one of the drawn kind; from level 5 on a diamond
/// behind it where the draw says so; from level 10 on a small enemy further
/// behind where the draw says so. During a boss fight the wave is one enemy.
pub open spec fn wave_spawns(config: GameConfig, level: int, boss_active: bool, rolls: WaveRolls) -> Seq<EnemySpawn> {
    let difficulty = difficulty_at(level);
    let y = spawn_height(config);
    let first = seq![
        enemy_spawn(
            config,
            Vec2D { x: rolls.first_x, y: y as i32 },
            chosen_type(level, boss_active, rolls.kind),
            difficulty,
            rolls.first,
        ),
    ];
    let second = if !boss_active && level >= 5 && rolls.second {
        first.push(
            enemy_spawn(
                config,
                Vec2D { x: rolls.second_x, y: (y + 50_000) as i32 },
                EnemyType::Diamond,
                difficulty,
                rolls.second_shape,
            ),
        )
    } else {
        first
    };
    if !boss_active && level >= 10 && rolls.third {
        second.push(
            enemy_spawn(
                config,
                Vec2D { x: rolls.third_x, y: (y + 100_000) as i32 },
                EnemyType::Small,
                difficulty,
                rolls.third_shape,
            ),
        )
    } else {
        second
    }
}

/// Builds the wave that the draws `rolls` give.
pub fn plan_wave(config: &GameConfig, level: u32, boss_active: bool, rolls: WaveRolls) -> (spawns: Vec<EnemySpawn>)
    requires
        config.wf(),
        rolls.first.speed_permille <= 1200,
        rolls.second_shape.speed_permille <= 1200,
        rolls.third_shape.speed_permille <= 1200,
    ensures
        spawns@ == wave_spawns(*config, level as int, boss_active, rolls),
{
    let difficulty = difficulty_for_level(level);
    let y: i32 = (config.window_height / 2 + SPAWN_MARGIN) as i32;
    let mut spawns: Vec<EnemySpawn> = Vec::new();
    let enemy_type = choose_enemy_type(level, boss_active, rolls.kind);
    spawns.push(build_enemy(config, Vec2D { x: rolls.first_x, y }, enemy_type, difficulty, rolls.first));
    if !boss_active && level >= 5 && rolls.second {
        spawns.push(
            build_enemy(
                config,
                Vec2D { x: rolls.second_x, y: y + 50_000 },
                EnemyType::Diamond,
                difficulty,
                rolls.second_shape,
            ),
        );
    }
    if !boss_active && level >= 10 && rolls.third {
        spawns.push(
            build_enemy(
                config,
                Vec2D { x: rolls.third_x, y: y + 100_000 },
                EnemyType::Small,
                difficulty,
                rolls.third_shape,
            ),
        );
    }
    spawns
}

fn roll_spawn_x(config: &GameConfig) -> (x: i32)
    requires
        config.wf(),
    ensures
        spawn_left(*config) <= x < spawn_right(*config),
{
    let half = (config.window_width / 2) as i64;
    roll_range(SPAWN_MARGIN as i64 - half, half - SPAWN_MARGIN as i64) as i32
}

/// Draws one wave: the kind of the first enemy, where the enemies appear, how
/// each of them looks and moves, and whether a second and a third come along.
pub fn roll_wave(config: &GameConfig, level: u32, boss_active: bool) -> (rolls: WaveRolls)
    requires
        config.wf(),
    ensures
        rolls.valid(*config, level as int, boss_active),
{
    let difficulty = difficulty_for_level(level);
    let kind = roll_type(level, boss_active);
    let enemy_type = choose_enemy_type(level, boss_active, kind);
    let first_x = roll_spawn_x(config);
    let first = roll_spawn(enemy_type, shoot_interval_for(enemy_type, difficulty));
    let second = !boss_active && level >= 5 && roll_ratio(30, 100);
    let second_x = roll_spawn_x(config);
    let second_shape = roll_spawn(EnemyType::Diamond, shoot_interval_for(EnemyType::Diamond, difficulty));
    let third = !boss_active && level >= 10 && roll_ratio(20, 100);
    let third_x = roll_spawn_x(config);
    let third_shape = roll_spawn(EnemyType::Small, shoot_interval_for(EnemyType::Small, difficulty));
    WaveRolls { kind, first_x, first, second, second_x, second_shape, third, third_x, third_shape }
}

/// The spawn director. Advances its clock by one frame; when the interval is
/// reached it draws a wave and returns its enemies, else it returns none.
pub fn spawn_enemies(
    timer: &mut EnemySpawnTimer,
    config: &GameConfig,
    level: u32,
    boss_active: bool,
    delta: u32,
) -> (spawns: Vec<EnemySpawn>)
    requires
        config.wf(),
        old(timer).timer + delta <= u64::MAX,
    ensures
        *final(timer) == old(timer).advanced(*config, level as int, boss_active, delta as int),
        !old(timer).due(*config, level as int, boss_active, delta as int) ==> spawns@.len() == 0,
        old(timer).due(*config, level as int, boss_active, delta as int) ==> exists|rolls: WaveRolls|
            #![trigger rolls.valid(*config, level as int, boss_active)]
            rolls.valid(*config, level as int, boss_active) && spawns@ == wave_spawns(
                *config,
                level as int,
                boss_active,
                rolls,
            ),
{
    if timer.tick(config, level, boss_active, delta) {
        let rolls = roll_wave(config, level, boss_active);
        let spawns = plan_wave(config, level, boss_active, rolls);
        assert(rolls.valid(*config, level as int, boss_active));
        spawns
    } else {
        Vec::new()
    }
}

/// While a boss is fought, waves come half as often.
pub proof fn lemma_boss_fight_halves_waves(config: GameConfig, level: int)
    ensures
        spawn_interval(config, level, true) == 2 * spawn_interval(config, level, false),
        spawn_interval(config, level, false) >= MIN_SPAWN_INTERVAL,
{
}

/// A wave holds one to three enemies; exactly one during a boss fight and
/// below level 5, and at most two below level 10.
pub proof fn lemma_wave_size(config: GameConfig, level: int, boss_active: bool, rolls: WaveRolls)
    ensures
        1 <= wave_spawns(config, level, boss_active, rolls).len() <= 3,
        boss_active || level < 5 ==> wave_spawns(config, level, boss_active, rolls).len() == 1,
        level < 10 ==> wave_spawns(config, level, boss_active, rolls).len() <= 2,
        !wave_spawns(config, level, boss_active, rolls)[0].enemy.enemy_type.elite() || (!boss_active && level
            >= 3),
{
}

/// The progress after an enemy worth `score_value` was destroyed: the score
/// rises by its value; the experience rises as well, unless a boss is fought.
pub open spec fn rewarded(game: GameData, boss_active: bool, score_value: int) -> GameData {
    if boss_active {
        game.with_score(score_value)
    } else {
        game.with_score(score_value).with_experience(score_value)
    }
}

/// Whether the reward for an enemy worth `score_value` fits the counters.
pub open spec fn reward_fits(game: GameData, boss_active: bool, score_value: int) -> bool {
    &&& game.score + score_value <= u32::MAX
    &&& !boss_active ==> game.experience_fits(score_value)
}

/// Takes `damage` from the enemy's health. At zero or below the enemy is
/// destroyed, which the result says, and its value is awarded. The caller
/// removes a destroyed enemy.
pub fn apply_direct_damage(game: &mut GameData, boss_active: bool, enemy: &mut Enemy, damage: i32) -> (killed: bool)
    requires
        i32::MIN <= old(enemy).health - damage <= i32::MAX,
        old(enemy).health - damage <= 0 ==> reward_fits(*old(game), boss_active, old(enemy).score_value as int),
    ensures
        *final(enemy) == (Enemy { health: (old(enemy).health - damage) as i32, ..*old(enemy) }),
        killed == (old(enemy).health - damage <= 0),
        *final(game) == if killed {
            rewarded(*old(game), boss_active, old(enemy).score_value as int)
        } else {
            *old(game)
        },
{
    enemy.health -= damage;
    if enemy.health <= 0 {
        if boss_active {
            game.add_score_only(enemy.score_value);
        } else {
            game.add_score(enemy.score_value);
        }
        true
    } else {
        false
    }
}

/// Draws whether an enemy leaves a coin: a destroyed enemy does in 2 of 100
/// cases, whether or not a boss is fought; any other never does.
pub fn drops_coin(killed: bool) -> (coin: bool)
    ensures
        coin ==> killed,
{
    leaves_coin(killed, killed && roll_ratio(COIN_CHANCE, 100))
}

/// An enemy destroyed while a boss is fought raises the score by its value and
/// leaves experience, player level and the upgrade prompt as they were, also
/// where the experience would have sufficed for the next level.
pub proof fn lemma_no_experience_in_boss_fight(game: GameData, score_value: u32)
    requires
        game.score + score_value <= u32::MAX,
    ensures
        rewarded(game, true, score_value as int).score == game.score + score_value,
        rewarded(game, true, score_value as int).experience == game.experience,
        rewarded(game, true, score_value as int).player_level == game.player_level,
        rewarded(game, true, score_value as int).upgrading == game.upgrading,
{
}

/// A chance: `hits` of `of` cases.
#[derive(Clone, Copy, PartialEq, Eq, Structural, Debug)]
pub struct Odds {
    pub hits: u32,
    pub of: u32,
}

impl Odds {
    /// There is at least one case, and no more hits than cases.
    pub open spec fn wf(self) -> bool {
        0 < self.of && self.hits <= self.of
    }
}

/// Chance that a destroyed enemy leaves a coin, in hundredths.
pub const COIN_CHANCE: u32 = 2;

/// Whether an enemy leaves a coin, given the draw: it leaves one when it was
/// destroyed and the draw came up.
pub fn leaves_coin(killed: bool, roll: bool) -> (coin: bool)
    ensures
        coin == (killed && roll),
{
    killed && roll
}

/// The chances with which the kind of a wave's first enemy is drawn.
#[derive(Clone, Copy, PartialEq, Eq, Structural, Debug)]
pub struct TypeOdds {
    /// During a boss fight: a small enemy rather than a diamond.
    pub small: Odds,
    /// From level 3 on: an elite.
    pub elite: Odds,
    /// Where no elite comes: a diamond.
    pub diamond: Odds,
    /// Where neither comes: a hexagon rather than a small enemy.
    pub hexagon: Odds,
}

/// The chances at a player level. During a boss fight 70 of 100 enemies are
/// small. Outside, an elite comes with `elite_chance`; of the others,
/// `hexagon_chance` of 100 are hexagons and 15 of 100 are small, so that a
/// diamond comes in the rest of 100 cases and, where none comes, a hexagon in
/// `hexagon_chance` of the cases that are left to hexagons and small enemies.
pub open spec fn type_odds(level: int) -> TypeOdds {
    TypeOdds {
        small: Odds { hits: 70, of: 100 },
        elite: Odds { hits: elite_chance(level) as u32, of: 1000 },
        diamond: Odds { hits: (100 - hexagon_chance(level) - SMALL_CHANCE) as u32, of: 100 },
        hexagon: Odds { hits: hexagon_chance(level) as u32, of: (hexagon_chance(level) + SMALL_CHANCE) as u32 },
    }
}

/// The chances at a player level.
pub fn type_odds_for(level: u32) -> (odds: TypeOdds)
    ensures
        odds == type_odds(level as int),
        odds.small.wf(),
        odds.elite.wf(),
        odds.diamond.wf(),
        odds.hexagon.wf(),
{
    let hexagon = hexagon_chance_percent(level);
    TypeOdds {
        small: Odds { hits: 70, of: 100 },
        elite: Odds { hits: elite_chance_permille(level), of: 1000 },
        diamond: Odds { hits: 100 - hexagon - SMALL_CHANCE, of: 100 },
        hexagon: Odds { hits: hexagon, of: hexagon + SMALL_CHANCE },
    }
}

/// Outside boss fights and apart from elites, the chances of the three kinds
/// add up: of 100 enemies, as many are diamonds as hexagons and small enemies
/// leave, and of those that are left, all but 15 are hexagons. The chance of
/// an elite is 2 to 8 in 100.
pub proof fn lemma_type_odds(level: int)
    requires
        0 <= level,
    ensures
        type_odds(level).diamond.hits + type_odds(level).hexagon.of == 100,
        type_odds(level).hexagon.of - type_odds(level).hexagon.hits == SMALL_CHANCE,
        20 <= type_odds(level).elite.hits <= 80,
        level >= 20 ==> type_odds(level).elite.hits == 80,
        level >= 15 ==> type_odds(level).hexagon.hits == 50,
{
}

} // verus!
