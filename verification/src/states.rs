//! Session state: the game's phases, the run's progress and the configuration.

use vstd::prelude::*;
use crate::geometry::{
    floor_sqrt, is_floor_sqrt, isqrt, lemma_floor_sqrt_unique, lemma_square_monotone,
};

verus! {

/// Phase of the program as a whole.
#[derive(Clone, Copy, PartialEq, Eq, Structural, Debug, Hash)]
pub enum GameState {
    Loading,
    Menu,
    Playing,
    Paused,
    GameOver,
    Recharge,
}

impl Default for GameState {
    fn default() -> (state: GameState)
        ensures
            state == GameState::Loading,
    {
        GameState::Loading
    }
}

/// Time the program stays in `Loading` before it shows the menu, in microseconds.
pub const LOADING_TIME: u64 = 500_000;

/// Experience that the first level asks for.
pub const BASE_EXPERIENCE: u64 = 1300;

/// Progress of the current run.
#[derive(Clone, Copy, PartialEq, Eq, Structural, Debug)]
pub struct GameData {
    pub score: u32,
    pub high_score: u32,
    pub coins: u32,
    /// Stage number; the run has one stage.
    pub level: u32,
    pub lives: u32,
    pub max_lives: u32,
    pub shield: u32,
    pub max_shield: u32,
    /// Time played, in microseconds.
    pub play_time: u64,
    /// Experience gathered towards the next player level.
    pub experience: u32,
    pub player_level: u32,
    /// Set while the player chooses an upgrade; the simulation stands still meanwhile.
    pub upgrading: bool,
}

/// Experience needed to leave `level`: `1300 * level^1.5` rounded down, that is
/// the rounded-down square root of `1300^2 * level^3`, and at most `u32::MAX`.
pub open spec fn exp_required(level: int) -> int {
    let exact = floor_sqrt(1_690_000 * (level * level * level));
    if exact > u32::MAX {
        u32::MAX as int
    } else {
        exact
    }
}

/// The smaller of two integers.
pub open spec fn min_int(a: int, b: int) -> int {
    if a <= b {
        a
    } else {
        b
    }
}

/// The larger of two integers.
pub open spec fn max_int(a: int, b: int) -> int {
    if a >= b {
        a
    } else {
        b
    }
}

impl GameData {
    /// The state at the start of the first run.
    pub open spec fn initial() -> GameData {
        GameData {
            score: 0,
            high_score: 0,
            coins: 0,
            level: 1,
            lives: 3,
            max_lives: 5,
            shield: 0,
            max_shield: 3,
            play_time: 0,
            experience: 0,
            player_level: 1,
            upgrading: false,
        }
    }

    /// The state with `points` more score, and the high score raised to it where it is higher.
    pub open spec fn with_score(self, points: int) -> GameData {
        GameData {
            score: (self.score + points) as u32,
            high_score: max_int(self.high_score as int, self.score + points) as u32,
            ..self
        }
    }

    /// The state with `exp` more experience. Where that reaches what the level
    /// asks for, the player gains one level, keeps the surplus and is offered an upgrade.
    pub open spec fn with_experience(self, exp: int) -> GameData {
        let required = exp_required(self.player_level as int);
        if self.experience + exp >= required {
            GameData {
                experience: (self.experience + exp - required) as u32,
                player_level: (self.player_level + 1) as u32,
                upgrading: true,
                ..self
            }
        } else {
            GameData { experience: (self.experience + exp) as u32, ..self }
        }
    }

    /// Whether `exp` more experience fits: the sum is a `u32`, and so is the next level where it is reached.
    pub open spec fn experience_fits(self, exp: int) -> bool {
        &&& self.experience + exp <= u32::MAX
        &&& self.experience + exp >= exp_required(self.player_level as int) ==> self.player_level < u32::MAX
    }

    pub fn new() -> (data: GameData)
        ensures
            data == GameData::initial(),
    {
        GameData {
            score: 0,
            high_score: 0,
            coins: 0,
            level: 1,
            lives: 3,
            max_lives: 5,
            shield: 0,
            max_shield: 3,
            play_time: 0,
            experience: 0,
            player_level: 1,
            upgrading: false,
        }
    }

    /// Starts a run over. Only the high score is kept.
    pub fn reset(&mut self)
        ensures
            *final(self) == (GameData { high_score: old(self).high_score, ..GameData::initial() }),
    {
        self.score = 0;
        self.coins = 0;
        self.level = 1;
        self.lives = 3;
        self.max_lives = 5;
        self.shield = 0;
        self.max_shield = 3;
        self.play_time = 0;
        self.experience = 0;
        self.player_level = 1;
        self.upgrading = false;
    }

    /// Adds `points` to the score and as much experience.
    pub fn add_score(&mut self, points: u32)
        requires
            old(self).score + points <= u32::MAX,
            old(self).experience_fits(points as int),
        ensures
            *final(self) == old(self).with_score(points as int).with_experience(points as int),
    {
        self.score += points;
        if self.score > self.high_score {
            self.high_score = self.score;
        }
        self.add_experience(points);
    }

    /// Adds `points` to the score and no experience.
    pub fn add_score_only(&mut self, points: u32)
        requires
            old(self).score + points <= u32::MAX,
        ensures
            *final(self) == old(self).with_score(points as int),
    {
        self.score += points;
        if self.score > self.high_score {
            self.high_score = self.score;
        }
    }

    /// Experience needed to leave `level`.
    pub fn exp_for_level(level: u32) -> (required: u32)
        ensures
            required == exp_required(level as int),
    {
        let cubed_bound: u64 = 22183;
        let l: u64 = level as u64;
        if l >= cubed_bound {
            proof {
                let n = 1_690_000 * (l * l * l);
                assert(l * l * l >= 22183 * 22183 * 22183) by (nonlinear_arith)
                    requires
                        l >= 22183,
                ;
                crate::geometry::lemma_floor_sqrt_exists(n);
                let s = floor_sqrt(n);
                if s < u32::MAX {
                    lemma_square_monotone(s + 1, u32::MAX as int);
                }
            }
            u32::MAX
        } else {
            assert(l * l * l <= 22182 * 22182 * 22182) by (nonlinear_arith)
                requires
                    0 <= l <= 22182,
            ;
            assert(l * l <= 22182 * 22182) by (nonlinear_arith)
                requires
                    0 <= l <= 22182,
            ;
            isqrt(1_690_000 * (l * l * l))
        }
    }

    /// Adds experience; one call raises the player level by one at most.
    pub fn add_experience(&mut self, exp: u32)
        requires
            old(self).experience_fits(exp as int),
        ensures
            *final(self) == old(self).with_experience(exp as int),
    {
        self.experience += exp;
        let required = Self::exp_for_level(self.player_level);
        if self.experience >= required {
            self.experience -= required;
            self.player_level += 1;
            self.upgrading = true;
        }
    }

    /// Share of the level's experience gathered so far, in thousandths, at most 1000.
    /// A level that asks for nothing counts as complete.
    pub open spec fn progress_permille(self) -> int {
        let required = exp_required(self.player_level as int);
        if required == 0 {
            1000
        } else {
            min_int(self.experience * 1000 / required, 1000)
        }
    }

    /// Share of the level's experience gathered so far, in thousandths.
    pub fn exp_progress(&self) -> (permille: u32)
        ensures
            permille == self.progress_permille(),
            permille <= 1000,
    {
        let required = Self::exp_for_level(self.player_level) as u64;
        if required == 0 {
            1000
        } else {
            let share = (self.experience as u64) * 1000 / required;
            if share > 1000 {
                1000
            } else {
                share as u32
            }
        }
    }

    /// Restores lives, up to the maximum.
    pub fn heal(&mut self, amount: u32)
        ensures
            *final(self) == (GameData {
                lives: min_int(old(self).lives + amount, old(self).max_lives as int) as u32,
                ..*old(self)
            }),
    {
        let sum = self.lives as u64 + amount as u64;
        self.lives = if sum > self.max_lives as u64 {
            self.max_lives
        } else {
            sum as u32
        };
    }

    /// Restores shield, up to the maximum.
    pub fn restore_shield(&mut self, amount: u32)
        ensures
            *final(self) == (GameData {
                shield: min_int(old(self).shield + amount, old(self).max_shield as int) as u32,
                ..*old(self)
            }),
    {
        let sum = self.shield as u64 + amount as u64;
        self.shield = if sum > self.max_shield as u64 {
            self.max_shield
        } else {
            sum as u32
        };
    }

    /// Difficulty at the player's level, in percent: 100 at level 1 and 30
    /// more for each level after it. The progress itself is left as it is.
    pub fn difficulty_multiplier(&self) -> (percent: u64)
        ensures
            percent == 100 + 30 * (self.player_level - 1),
    {
        70 + 30 * (self.player_level as u64)
    }

    /// Adds the time of one frame to the time played.
    pub fn update_game_time(&mut self, delta: u32)
        requires
            old(self).play_time + delta <= u64::MAX,
        ensures
            *final(self) == (GameData { play_time: (old(self).play_time + delta) as u64, ..*old(self) }),
    {
        self.play_time += delta as u64;
    }
}

impl Default for GameData {
    /// The state before any run: everything zero.
    fn default() -> (data: GameData)
        ensures
            data == (GameData {
                score: 0,
                high_score: 0,
                coins: 0,
                level: 0,
                lives: 0,
                max_lives: 0,
                shield: 0,
                max_shield: 0,
                play_time: 0,
                experience: 0,
                player_level: 0,
                upgrading: false,
            }),
    {
        GameData {
            score: 0,
            high_score: 0,
            coins: 0,
            level: 0,
            lives: 0,
            max_lives: 0,
            shield: 0,
            max_shield: 0,
            play_time: 0,
            experience: 0,
            player_level: 0,
            upgrading: false,
        }
    }
}

/// The gameplay systems run only while the player is not choosing an upgrade.
pub fn not_upgrading(game_data: &GameData) -> (run: bool)
    ensures
        run == !game_data.upgrading,
{
    !game_data.upgrading
}

/// The experience curve is the rounded-down value of `1300 * level^1.5` as long
/// as that fits a `u32`: its square is at most `1300^2 * level^3`, and the square
/// of the next number is more.
pub proof fn lemma_exp_curve(level: int)
    requires
        0 <= level < 22183,
    ensures
        is_floor_sqrt(1_690_000 * (level * level * level), exp_required(level)),
{
    let n = 1_690_000 * (level * level * level);
    assert(0 <= level * level * level <= 22182 * 22182 * 22182) by (nonlinear_arith)
        requires
            0 <= level <= 22182,
    ;
    crate::geometry::lemma_floor_sqrt_exists(n);
    let s = floor_sqrt(n);
    if s > u32::MAX {
        lemma_square_monotone(0x1_0000_0000, s);
    }
}

/// Two values of the experience curve: 1300 at level 1 and 10400 at level 4.
pub proof fn lemma_exp_curve_values()
    ensures
        exp_required(1) == 1300,
        exp_required(4) == 10400,
{
    assert(1_690_000 * (1 * 1 * 1) == 1_690_000int);
    assert(1_690_000 * (4 * 4 * 4) == 108_160_000int);
    assert(is_floor_sqrt(1_690_000, 1300)) by (nonlinear_arith);
    assert(is_floor_sqrt(108_160_000, 10400)) by (nonlinear_arith);
    lemma_floor_sqrt_unique(1_690_000, 1300);
    lemma_floor_sqrt_unique(108_160_000, 10400);
}

/// Gained experience raises the stored experience by no more than the gain,
/// and the player level by one at most; nothing else but the upgrade prompt changes.
pub proof fn lemma_experience_bounds(game: GameData, exp: int)
    requires
        0 <= exp,
        game.experience_fits(exp),
    ensures
        0 <= exp_required(game.player_level as int) <= u32::MAX,
        game.with_experience(exp).experience <= game.experience + exp,
        game.player_level <= game.with_experience(exp).player_level <= game.player_level + 1,
        game.with_experience(exp).score == game.score,
        game.with_experience(exp).high_score == game.high_score,
{
    let level = game.player_level as int;
    assert(level * level * level >= 0) by (nonlinear_arith)
        requires
            level >= 0,
    ;
    crate::geometry::lemma_floor_sqrt_exists(1_690_000 * (level * level * level));
}

/// The experience curve never falls from one level to the next.
pub proof fn lemma_exp_curve_monotone(a: int, b: int)
    requires
        0 <= a <= b,
    ensures
        exp_required(a) <= exp_required(b),
{
    let na = 1_690_000 * (a * a * a);
    let nb = 1_690_000 * (b * b * b);
    assert(0 <= a * a * a <= b * b * b) by (nonlinear_arith)
        requires
            0 <= a <= b,
    ;
    crate::geometry::lemma_floor_sqrt_exists(na);
    crate::geometry::lemma_floor_sqrt_exists(nb);
    let sa = floor_sqrt(na);
    let sb = floor_sqrt(nb);
    if sb < sa {
        lemma_square_monotone(sb + 1, sa);
    }
}

/// The constants of a session. Lengths are in length units, speeds in units per
/// second, times in microseconds.
#[derive(Clone, Copy, PartialEq, Eq, Structural, Debug)]
pub struct GameConfig {
    pub window_width: u32,
    pub window_height: u32,
    pub player_speed: u32,
    pub bullet_speed: u32,
    pub enemy_base_speed: u32,
    pub scroll_speed: u32,
    /// Time between two enemy waves at level 1.
    pub enemy_spawn_interval: u32,
    /// Time between two plain bullets.
    pub shoot_cooldown: u32,
}

/// Largest window side and largest speed that a configuration may hold.
pub const CONFIG_LIMIT: u32 = 500_000_000;

/// Distance that enemies keep from the window's left and right edge where they appear.
pub const SPAWN_MARGIN: u32 = 50_000;

impl GameConfig {
    /// Half the window is wider than the spawn margin, and no side or speed is beyond the limit.
    pub open spec fn wf(self) -> bool {
        &&& SPAWN_MARGIN < self.window_width / 2
        &&& self.window_width <= CONFIG_LIMIT
        &&& self.window_height <= CONFIG_LIMIT
        &&& self.player_speed <= CONFIG_LIMIT
        &&& self.bullet_speed <= CONFIG_LIMIT
        &&& self.enemy_base_speed <= CONFIG_LIMIT
        &&& self.scroll_speed <= CONFIG_LIMIT
    }

    /// A window of 480 by 720 pixels.
    pub open spec fn standard() -> GameConfig {
        GameConfig {
            window_width: 480_000,
            window_height: 720_000,
            player_speed: 300_000,
            bullet_speed: 500_000,
            enemy_base_speed: 150_000,
            scroll_speed: 50_000,
            enemy_spawn_interval: 1_500_000,
            shoot_cooldown: 150_000,
        }
    }
}

impl Default for GameConfig {
    fn default() -> (config: GameConfig)
        ensures
            config == GameConfig::standard(),
            config.wf(),
    {
        GameConfig {
            window_width: 480_000,
            window_height: 720_000,
            player_speed: 300_000,
            bullet_speed: 500_000,
            enemy_base_speed: 150_000,
            scroll_speed: 50_000,
            enemy_spawn_interval: 1_500_000,
            shoot_cooldown: 150_000,
        }
    }
}

} // verus!
