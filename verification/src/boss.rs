//! Bosses: their kinds, the fight's state, the phase that follows from health,
//! and when a boss appears.

use vstd::prelude::*;
use crate::collision::{hitbox_on, CollisionLayer, Hitbox};
use crate::geometry::Vec2D;
use crate::random::roll_range;
use crate::states::{min_int, GameConfig, GameData};

verus! {

/// The ten bosses.
#[derive(Clone, Copy, PartialEq, Eq, Structural, Debug)]
pub enum BossType {
    /// Fires fans.
    DiamondKing,
    /// Fires six ways, turning from volley to volley.
    HexFortress,
    /// Fires three shots straight down.
    TriangleFighter,
    /// Fires a five-pointed star.
    StarMothership,
    /// Fires rings.
    CircleGuardian,
    /// Fires along both axes.
    CrossLaser,
    /// Fires four ways, turning from volley to volley.
    SpiralShooter,
    /// Fires four ways.
    SplitCore,
    /// Scatters shots downwards.
    TrackerPrime,
    /// Fires one of four patterns, drawn anew each time.
    ChaosEye,
}

impl BossType {
    /// All bosses, in the order in which they are drawn.
    pub open spec fn all_types() -> Seq<BossType> {
        seq![
            BossType::DiamondKing,
            BossType::HexFortress,
            BossType::TriangleFighter,
            BossType::StarMothership,
            BossType::CircleGuardian,
            BossType::CrossLaser,
            BossType::SpiralShooter,
            BossType::SplitCore,
            BossType::TrackerPrime,
            BossType::ChaosEye,
        ]
    }

    /// Display name.
    pub open spec fn display_name(self) -> Seq<char> {
        match self {
            BossType::DiamondKing => "菱形王"@,
            BossType::HexFortress => "六边堡垒"@,
            BossType::TriangleFighter => "三角战机"@,
            BossType::StarMothership => "星形母舰"@,
            BossType::CircleGuardian => "圆形守护者"@,
            BossType::CrossLaser => "十字激光"@,
            BossType::SpiralShooter => "螺旋射手"@,
            BossType::SplitCore => "分裂核心"@,
            BossType::TrackerPrime => "追踪者Prime"@,
            BossType::ChaosEye => "混沌之眼"@,
        }
    }

    /// Health of the boss at player level 10.
    pub open spec fn health_base(self) -> int {
        match self {
            BossType::DiamondKing => 2000,
            BossType::HexFortress => 3000,
            BossType::TriangleFighter => 1600,
            BossType::StarMothership => 2400,
            BossType::CircleGuardian => 3600,
            BossType::CrossLaser => 2000,
            BossType::SpiralShooter => 1800,
            BossType::SplitCore => 1400,
            BossType::TrackerPrime => 2200,
            BossType::ChaosEye => 2600,
        }
    }

    /// Score for defeating the boss.
    pub open spec fn score(self) -> int {
        match self {
            BossType::DiamondKing => 2000,
            BossType::HexFortress => 3000,
            BossType::TriangleFighter => 1500,
            BossType::StarMothership => 2500,
            BossType::CircleGuardian => 3500,
            BossType::CrossLaser => 2000,
            BossType::SpiralShooter => 1800,
            BossType::SplitCore => 1500,
            BossType::TrackerPrime => 2200,
            BossType::ChaosEye => 2800,
        }
    }

    /// Radius of the boss's collision circle.
    pub open spec fn radius(self) -> int {
        match self {
            BossType::DiamondKing => 48_000,
            BossType::HexFortress => 54_000,
            BossType::TriangleFighter => 42_000,
            BossType::StarMothership => 48_000,
            BossType::CircleGuardian => 60_000,
            BossType::CrossLaser => 48_000,
            BossType::SpiralShooter => 54_000,
            BossType::SplitCore => 48_000,
            BossType::TrackerPrime => 42_000,
            BossType::ChaosEye => 60_000,
        }
    }

    /// Time between two volleys in `phase`, in microseconds. Bosses with
    /// dense volleys wait less, and every boss waits less from phase to phase.
    pub open spec fn cooldown(self, phase: int) -> int {
        match self {
            BossType::HexFortress | BossType::SpiralShooter | BossType::CircleGuardian => if phase == 1 {
                1_600_000
            } else if phase == 2 {
                1_200_000
            } else {
                900_000
            },
            BossType::TrackerPrime | BossType::SplitCore | BossType::CrossLaser => if phase == 1 {
                1_400_000
            } else if phase == 2 {
                1_050_000
            } else {
                800_000
            },
            _ => if phase == 1 {
                1_800_000
            } else if phase == 2 {
                1_350_000
            } else {
                1_000_000
            },
        }
    }

    pub fn all() -> (kinds: Vec<BossType>)
        ensures
            kinds@ == BossType::all_types(),
    {
        let mut kinds: Vec<BossType> = Vec::new();
        kinds.push(BossType::DiamondKing);
        kinds.push(BossType::HexFortress);
        kinds.push(BossType::TriangleFighter);
        kinds.push(BossType::StarMothership);
        kinds.push(BossType::CircleGuardian);
        kinds.push(BossType::CrossLaser);
        kinds.push(BossType::SpiralShooter);
        kinds.push(BossType::SplitCore);
        kinds.push(BossType::TrackerPrime);
        kinds.push(BossType::ChaosEye);
        kinds
    }

    /// The boss with the given number in `all_types`; the last one for any number beyond.
    pub fn from_index(index: u32) -> (kind: BossType)
        ensures
            kind == BossType::all_types()[min_int(index as int, 9)],
    {
        match index {
            0 => BossType::DiamondKing,
            1 => BossType::HexFortress,
            2 => BossType::TriangleFighter,
            3 => BossType::StarMothership,
            4 => BossType::CircleGuardian,
            5 => BossType::CrossLaser,
            6 => BossType::SpiralShooter,
            7 => BossType::SplitCore,
            8 => BossType::TrackerPrime,
            _ => BossType::ChaosEye,
        }
    }

    pub fn name(&self) -> (name: &'static str)
        ensures
            name@ == self.display_name(),
    {
        match self {
            BossType::DiamondKing => "菱形王",
            BossType::HexFortress => "六边堡垒",
            BossType::TriangleFighter => "三角战机",
            BossType::StarMothership => "星形母舰",
            BossType::CircleGuardian => "圆形守护者",
            BossType::CrossLaser => "十字激光",
            BossType::SpiralShooter => "螺旋射手",
            BossType::SplitCore => "分裂核心",
            BossType::TrackerPrime => "追踪者Prime",
            BossType::ChaosEye => "混沌之眼",
        }
    }

    pub fn base_health(&self) -> (health: i32)
        ensures
            health == self.health_base(),
    {
        match self {
            BossType::DiamondKing => 2000,
            BossType::HexFortress => 3000,
            BossType::TriangleFighter => 1600,
            BossType::StarMothership => 2400,
            BossType::CircleGuardian => 3600,
            BossType::CrossLaser => 2000,
            BossType::SpiralShooter => 1800,
            BossType::SplitCore => 1400,
            BossType::TrackerPrime => 2200,
            BossType::ChaosEye => 2600,
        }
    }

    pub fn score_value(&self) -> (score: u32)
        ensures
            score == self.score(),
    {
        match self {
            BossType::DiamondKing => 2000,
            BossType::HexFortress => 3000,
            BossType::TriangleFighter => 1500,
            BossType::StarMothership => 2500,
            BossType::CircleGuardian => 3500,
            BossType::CrossLaser => 2000,
            BossType::SpiralShooter => 1800,
            BossType::SplitCore => 1500,
            BossType::TrackerPrime => 2200,
            BossType::ChaosEye => 2800,
        }
    }

    /// Radius of the boss's collision circle.
    pub fn collision_radius(&self) -> (radius: u32)
        ensures
            radius == self.radius(),
    {
        match self {
            BossType::DiamondKing => 48_000,
            BossType::HexFortress => 54_000,
            BossType::TriangleFighter => 42_000,
            BossType::StarMothership => 48_000,
            BossType::CircleGuardian => 60_000,
            BossType::CrossLaser => 48_000,
            BossType::SpiralShooter => 54_000,
            BossType::SplitCore => 48_000,
            BossType::TrackerPrime => 42_000,
            BossType::ChaosEye => 60_000,
        }
    }
}

/// Time between two volleys of `boss_type` in `phase`, in microseconds.
pub fn boss_attack_cooldown(boss_type: BossType, phase: u32) -> (cooldown: u32)
    ensures
        cooldown == boss_type.cooldown(phase as int),
{
    match boss_type {
        BossType::HexFortress | BossType::SpiralShooter | BossType::CircleGuardian => match phase {
            1 => 1_600_000,
            2 => 1_200_000,
            _ => 900_000,
        },
        BossType::TrackerPrime | BossType::SplitCore | BossType::CrossLaser => match phase {
            1 => 1_400_000,
            2 => 1_050_000,
            _ => 800_000,
        },
        _ => match phase {
            1 => 1_800_000,
            2 => 1_350_000,
            _ => 1_000_000,
        },
    }
}

/// Every boss fires faster from phase to phase.
pub proof fn lemma_cooldown_shortens(boss_type: BossType)
    ensures
        boss_type.cooldown(1) > boss_type.cooldown(2) > boss_type.cooldown(3) > 0,
{
}

/// The fight as the rest of the game sees it.
#[derive(Clone, Copy, PartialEq, Eq, Structural, Debug)]
pub struct BossState {
    /// Whether a boss is being fought.
    pub active: bool,
    /// The player level at which the last boss appeared.
    pub last_boss_level: u32,
    /// Health with which the boss appeared.
    pub total_health: i32,
    pub current_health: i32,
    /// Which boss it is, once one has appeared.
    pub boss_type: Option<BossType>,
}

impl Default for BossState {
    fn default() -> (state: BossState)
        ensures
            state == (BossState {
                active: false,
                last_boss_level: 0,
                total_health: 0,
                current_health: 0,
                boss_type: None,
            }),
    {
        BossState { active: false, last_boss_level: 0, total_health: 0, current_health: 0, boss_type: None }
    }
}

impl BossState {
    /// Share of the boss's health that is left, in percent and rounded down,
    /// kept within 0 and 100: 0 where no health is left or none was there, and
    /// 100 where more is left than there was.
    pub open spec fn percent_left(self) -> int {
        if self.total_health <= 0 || self.current_health <= 0 {
            0
        } else {
            min_int(self.current_health * 100 / (self.total_health as int), 100)
        }
    }

    /// Share of the boss's health that is left, in percent, from 0 to 100.
    pub fn health_percent(&self) -> (percent: u64)
        ensures
            percent == self.percent_left(),
            percent <= 100,
    {
        if self.total_health <= 0 || self.current_health <= 0 {
            0
        } else {
            let share = (self.current_health as u64) * 100 / (self.total_health as u64);
            if share > 100 {
                100
            } else {
                share
            }
        }
    }

    /// The state once the fight is over or called off.
    pub open spec fn cleared(self) -> BossState {
        BossState { active: false, current_health: 0, ..self }
    }

    /// Ends the fight.
    pub fn clear(&mut self)
        ensures
            *final(self) == old(self).cleared(),
    {
        self.active = false;
        self.current_health = 0;
    }
}

/// A boss.
#[derive(Clone, Copy, PartialEq, Eq, Structural, Debug)]
pub struct Boss {
    pub boss_type: BossType,
    pub health: i32,
    pub max_health: i32,
    /// 1, 2 or 3: how far the fight has gone. It follows from the health.
    pub phase: u32,
    /// Time until the next volley, in microseconds.
    pub attack_timer: i64,
    /// Counts the volleys of the bosses that turn from volley to volley.
    pub attack_pattern: u32,
    /// Time since the boss took its place, in microseconds.
    pub move_timer: u64,
    pub score_value: u32,
    /// Whether the boss has taken its place.
    pub entered: bool,
}

/// The phase that follows from the health: 1 above six tenths of the full
/// health, 2 above three tenths, else 3.
pub open spec fn phase_for(health: int, max_health: int) -> int {
    if 10 * health > 6 * max_health {
        1
    } else if 10 * health > 3 * max_health {
        2
    } else {
        3
    }
}

impl Boss {
    /// The full health is positive, and the phase is 1, 2 or 3.
    pub open spec fn wf(self) -> bool {
        &&& self.max_health > 0
        &&& 1 <= self.phase <= 3
    }

    /// A boss that has just appeared: at full health, in phase 1, two seconds from its first volley.
    pub open spec fn fresh(boss_type: BossType, health: i32) -> Boss {
        Boss {
            boss_type,
            health,
            max_health: health,
            phase: 1,
            attack_timer: 2_000_000,
            attack_pattern: 0,
            move_timer: 0,
            score_value: boss_type.score() as u32,
            entered: false,
        }
    }

    pub fn new(boss_type: BossType, health: i32) -> (boss: Boss)
        ensures
            boss == Boss::fresh(boss_type, health),
    {
        Boss {
            boss_type,
            health,
            max_health: health,
            phase: 1,
            attack_timer: 2_000_000,
            attack_pattern: 0,
            move_timer: 0,
            score_value: boss_type.score_value(),
            entered: false,
        }
    }

    /// The phase that follows from the boss's health.
    pub fn current_phase(&self) -> (phase: u32)
        ensures
            phase == phase_for(self.health as int, self.max_health as int),
            1 <= phase <= 3,
    {
        let health = self.health as i64;
        let full = self.max_health as i64;
        if 10 * health > 6 * full {
            1
        } else if 10 * health > 3 * full {
            2
        } else {
            3
        }
    }

    /// Sets the phase to the one that follows from the health.
    pub fn update_phase(&mut self)
        ensures
            *final(self) == (Boss {
                phase: phase_for(old(self).health as int, old(self).max_health as int) as u32,
                ..*old(self)
            }),
    {
        self.phase = self.current_phase();
    }
}

/// The phase depends on nothing but the share of health that is left: bosses
/// with the same health and full health are in the same phase, and scaling both
/// by the same factor changes nothing.
pub proof fn lemma_phase_follows_ratio(health: int, max_health: int, factor: int)
    requires
        factor > 0,
    ensures
        phase_for(factor * health, factor * max_health) == phase_for(health, max_health),
{
    assert(10 * (factor * health) > 6 * (factor * max_health) <==> 10 * health > 6 * max_health)
        by (nonlinear_arith)
        requires
            factor > 0,
    ;
    assert(10 * (factor * health) > 3 * (factor * max_health) <==> 10 * health > 3 * max_health)
        by (nonlinear_arith)
        requires
            factor > 0,
    ;
}

/// With a full health of 1000 the phase is 1 above 600, 2 above 300 up to 600,
/// and 3 up to 300.
pub proof fn lemma_phase_thresholds(health: int)
    ensures
        600 < health ==> phase_for(health, 1000) == 1,
        300 < health <= 600 ==> phase_for(health, 1000) == 2,
        health <= 300 ==> phase_for(health, 1000) == 3,
{
}

/// Never does the phase fall when the health falls.
pub proof fn lemma_phase_monotone(lower: int, higher: int, max_health: int)
    requires
        lower <= higher,
    ensures
        phase_for(lower, max_health) >= phase_for(higher, max_health),
{
}

/// A boss to bring into the world.
#[derive(Clone, Copy, PartialEq, Eq, Structural, Debug)]
pub struct BossSpawn {
    pub position: Vec2D,
    pub boss: Boss,
    /// Its collider: the circle of its kind, on the enemy layer, reacting to the ship and its bullets.
    pub hitbox: Hitbox,
}

/// The player level that calls for a boss: the last full ten.
pub open spec fn boss_level_for(player_level: int) -> int {
    player_level / 10 * 10
}

/// Whether a boss appears: none is there, and the player has reached a
/// multiple of ten levels beyond the one of the last boss.
pub open spec fn boss_due(player_level: int, state: BossState, boss_present: bool) -> bool {
    !state.active && !boss_present && boss_level_for(player_level) > state.last_boss_level
}

/// Health of a boss that appears at `boss_level`: the base health for each ten levels.
pub open spec fn boss_health(boss_type: BossType, boss_level: int) -> int {
    min_int(boss_type.health_base() * (boss_level / 10), i32::MAX as int)
}

/// Where a boss appears: in the middle, 100 pixels above the window's top edge.
pub open spec fn boss_entry(config: GameConfig) -> Vec2D {
    Vec2D { x: 0, y: (config.window_height / 2 + 100_000) as i32 }
}

/// The fight's state once `boss_type` has appeared at `player_level`.
pub open spec fn fight_begun(state: BossState, boss_type: BossType, player_level: int) -> BossState {
    let level = boss_level_for(player_level);
    BossState {
        active: true,
        last_boss_level: level as u32,
        total_health: boss_health(boss_type, level) as i32,
        current_health: boss_health(boss_type, level) as i32,
        boss_type: Some(boss_type),
    }
}

/// Lets the boss with the number `pick` appear if one is due.
pub fn plan_boss_spawn(
    game_data: &GameData,
    boss_state: &mut BossState,
    config: &GameConfig,
    boss_present: bool,
    pick: u32,
) -> (spawn: Option<BossSpawn>)
    requires
        config.wf(),
    ensures
        spawn is Some <==> boss_due(game_data.player_level as int, *old(boss_state), boss_present),
        spawn is None ==> *final(boss_state) == *old(boss_state),
        spawn matches Some(s) ==> {
            let boss_type = BossType::all_types()[min_int(pick as int, 9)];
            let level = boss_level_for(game_data.player_level as int);
            &&& *final(boss_state) == fight_begun(*old(boss_state), boss_type, game_data.player_level as int)
            &&& s.position == boss_entry(*config)
            &&& s.boss == Boss::fresh(boss_type, boss_health(boss_type, level) as i32)
            &&& s.hitbox == hitbox_on(CollisionLayer::Enemy, boss_type.radius())
        },
{
    if boss_state.active || boss_present {
        return None;
    }
    let boss_level = game_data.player_level / 10 * 10;
    if boss_level == 0 || boss_level <= boss_state.last_boss_level {
        return None;
    }
    let boss_type = BossType::from_index(pick);
    let tens = (boss_level / 10) as i64;
    let base = boss_type.base_health() as i64;
    assert(0 <= base * tens <= 3600 * 0xffff_ffff) by (nonlinear_arith)
        requires
            0 <= base <= 3600,
            0 <= tens <= 0xffff_ffff,
    ;
    let scaled = base * tens;
    let health: i32 = if scaled > i32::MAX as i64 {
        i32::MAX
    } else {
        scaled as i32
    };
    boss_state.last_boss_level = boss_level;
    boss_state.active = true;
    boss_state.total_health = health;
    boss_state.current_health = health;
    boss_state.boss_type = Some(boss_type);
    Some(
        BossSpawn {
            position: Vec2D { x: 0, y: (config.window_height / 2 + 100_000) as i32 },
            boss: Boss::new(boss_type, health),
            hitbox: Hitbox::on(CollisionLayer::Enemy, boss_type.collision_radius()),
        },
    )
}

/// Lets a boss appear if one is due: every tenth player level, one of the
/// ten bosses, drawn evenly.
pub fn check_boss_spawn(game_data: &GameData, boss_state: &mut BossState, config: &GameConfig, boss_present: bool) -> (spawn:
    Option<BossSpawn>)
    requires
        config.wf(),
    ensures
        spawn is Some <==> boss_due(game_data.player_level as int, *old(boss_state), boss_present),
        spawn is None ==> *final(boss_state) == *old(boss_state),
        spawn matches Some(s) ==> {
            let level = boss_level_for(game_data.player_level as int);
            &&& *final(boss_state) == fight_begun(*old(boss_state), s.boss.boss_type, game_data.player_level as int)
            &&& s.position == boss_entry(*config)
            &&& s.boss == Boss::fresh(s.boss.boss_type, boss_health(s.boss.boss_type, level) as i32)
            &&& s.hitbox == hitbox_on(CollisionLayer::Enemy, s.boss.boss_type.radius())
        },
{
    if boss_state.active || boss_present || game_data.player_level / 10 * 10 <= boss_state.last_boss_level {
        return None;
    }
    let pick = roll_range(0, 10) as u32;
    plan_boss_spawn(game_data, boss_state, config, boss_present, pick)
}

} // verus!
