//! What the heads-up display reads each frame.

use vstd::prelude::*;
use crate::boss::{BossState, BossType};
use crate::states::{exp_required, max_int, min_int, GameData};
use crate::weapons::{Weapon, WeaponInventory, WeaponType};

verus! {

/// Number of segments of the experience bar.
pub const EXP_SEGMENTS: u32 = 10;

/// The bar of a boss's health.
#[derive(Clone, Copy, PartialEq, Eq, Structural, Debug)]
pub struct BossBar {
    pub boss_type: Option<BossType>,
    /// Share of the health that is left, in percent.
    pub percent: u64,
    /// Health that is left, no less than 0.
    pub current: i32,
    /// Full health, no less than 1.
    pub total: i32,
}

/// A weapon as the display shows it.
#[derive(Clone, Copy, PartialEq, Eq, Structural, Debug)]
pub struct WeaponBadge {
    pub weapon_type: WeaponType,
    pub level: u32,
}

/// Everything the display shows.
#[derive(Debug)]
pub struct HudSnapshot {
    pub score: u32,
    pub player_level: u32,
    pub coins: u32,
    /// Lives that are left, and lives that are lost.
    pub lives: u32,
    pub lost_lives: u32,
    /// Shield that is left, and shield that is gone.
    pub shield: u32,
    pub lost_shield: u32,
    /// Filled segments of the experience bar, of `EXP_SEGMENTS`.
    pub exp_segments: u32,
    pub experience: u32,
    pub exp_needed: u32,
    /// The boss's bar, while a boss is fought.
    pub boss: Option<BossBar>,
    pub weapons: Vec<WeaponBadge>,
}

/// Filled segments of the experience bar: the share of the level's experience
/// that is gathered, in tenths and rounded down; all of them where the level asks for nothing.
pub open spec fn exp_bar(game: GameData) -> int {
    let needed = exp_required(game.player_level as int);
    if needed == 0 {
        EXP_SEGMENTS as int
    } else {
        min_int(game.experience * 10 / needed, EXP_SEGMENTS as int)
    }
}

/// The bar of the boss, while one is fought.
pub open spec fn boss_bar(state: BossState) -> Option<BossBar> {
    if state.active {
        Some(
            BossBar {
                boss_type: state.boss_type,
                percent: state.percent_left() as u64,
                current: max_int(state.current_health as int, 0) as i32,
                total: max_int(state.total_health as int, 1) as i32,
            },
        )
    } else {
        None
    }
}

/// The weapons as badges.
pub open spec fn badges(weapons: Seq<Weapon>) -> Seq<WeaponBadge> {
    Seq::new(weapons.len(), |i: int| WeaponBadge { weapon_type: weapons[i].weapon_type, level: weapons[i].level })
}

/// Gathers what the display shows.
pub fn update_hud(game_data: &GameData, boss_state: &BossState, inventory: &WeaponInventory) -> (hud: HudSnapshot)
    ensures
        hud.score == game_data.score,
        hud.player_level == game_data.player_level,
        hud.coins == game_data.coins,
        hud.lives == game_data.lives,
        hud.lost_lives == max_int(game_data.max_lives - game_data.lives, 0),
        hud.shield == game_data.shield,
        hud.lost_shield == max_int(game_data.max_shield - game_data.shield, 0),
        hud.exp_segments == exp_bar(*game_data),
        hud.experience == game_data.experience,
        hud.exp_needed == exp_required(game_data.player_level as int),
        hud.boss == boss_bar(*boss_state),
        hud.weapons@ == badges(inventory.weapons@),
{
    let needed = GameData::exp_for_level(game_data.player_level);
    let exp_segments: u32 = if needed == 0 {
        EXP_SEGMENTS
    } else {
        let share = game_data.experience as u64 * 10 / needed as u64;
        if share > EXP_SEGMENTS as u64 {
            EXP_SEGMENTS
        } else {
            share as u32
        }
    };
    let boss = if boss_state.active {
        Some(
            BossBar {
                boss_type: boss_state.boss_type,
                percent: boss_state.health_percent(),
                current: if boss_state.current_health < 0 {
                    0
                } else {
                    boss_state.current_health
                },
                total: if boss_state.total_health < 1 {
                    1
                } else {
                    boss_state.total_health
                },
            },
        )
    } else {
        None
    };
    let mut weapons: Vec<WeaponBadge> = Vec::new();
    let mut i: usize = 0;
    while i < inventory.weapons.len()
        invariant
            i <= inventory.weapons@.len(),
            weapons@ == badges(inventory.weapons@.take(i as int)),
        decreases inventory.weapons@.len() - i,
    {
        weapons.push(
            WeaponBadge { weapon_type: inventory.weapons[i].weapon_type, level: inventory.weapons[i].level },
        );
        i = i + 1;
        assert(weapons@ =~= badges(inventory.weapons@.take(i as int)));
    }
    assert(inventory.weapons@.take(i as int) =~= inventory.weapons@);
    HudSnapshot {
        score: game_data.score,
        player_level: game_data.player_level,
        coins: game_data.coins,
        lives: game_data.lives,
        lost_lives: game_data.max_lives.saturating_sub(game_data.lives),
        shield: game_data.shield,
        lost_shield: game_data.max_shield.saturating_sub(game_data.shield),
        exp_segments,
        experience: game_data.experience,
        exp_needed: needed,
        boss,
        weapons,
    }
}

} // verus!
