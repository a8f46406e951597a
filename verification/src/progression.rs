//! Progress beyond the single run: the upgrades offered at a level-up, the
//! permanent upgrades bought with coins, and what a run leaves behind.

use vstd::prelude::*;
use crate::random::shuffle_choices;
use crate::states::{max_int, min_int, GameData, GameState, LOADING_TIME};
use crate::weapons::{
    granted, improvable, missing, Weapon, WeaponInventory, WeaponType, MAX_WEAPONS, MAX_WEAPON_LEVEL,
};

verus! {

/// Something that a level-up can grant.
#[derive(Clone, Copy, PartialEq, Eq, Structural, Debug)]
pub enum UpgradeChoice {
    /// A weapon, new or one level higher.
    Weapon { weapon_type: WeaponType, is_new: bool },
    /// One life.
    RestoreLives,
    /// Two points of shield.
    RestoreShield,
}

/// The kinds as choices.
pub open spec fn weapon_choices(kinds: Seq<WeaponType>, is_new: bool) -> Seq<UpgradeChoice> {
    Seq::new(kinds.len(), |i: int| UpgradeChoice::Weapon { weapon_type: kinds[i], is_new })
}

/// Whether the inventory is full and every weapon at its highest level.
pub open spec fn all_maxed(weapons: Seq<Weapon>) -> bool {
    weapons.len() >= MAX_WEAPONS && forall|i: int|
        0 <= i < weapons.len() ==> (#[trigger] weapons[i]).level >= MAX_WEAPON_LEVEL
}

/// What the ship can be given when only lives and shield are left to give:
/// what is not full; if both are full, both all the same.
pub open spec fn restore_choices(game: GameData) -> Seq<UpgradeChoice> {
    if game.lives < game.max_lives && game.shield < game.max_shield {
        seq![UpgradeChoice::RestoreLives, UpgradeChoice::RestoreShield]
    } else if game.lives < game.max_lives {
        seq![UpgradeChoice::RestoreLives]
    } else if game.shield < game.max_shield {
        seq![UpgradeChoice::RestoreShield]
    } else {
        seq![UpgradeChoice::RestoreLives, UpgradeChoice::RestoreShield]
    }
}

/// Everything that a level-up can grant: the weapons held that can still
/// rise, then, while a slot is free, the weapons not held; once every weapon
/// is at its highest level, lives and shield.
pub open spec fn upgrade_options(game: GameData, weapons: Seq<Weapon>) -> Seq<UpgradeChoice> {
    if all_maxed(weapons) {
        restore_choices(game)
    } else if weapons.len() >= MAX_WEAPONS {
        weapon_choices(improvable(weapons, weapons.len() as int), false)
    } else {
        weapon_choices(improvable(weapons, weapons.len() as int), false) + weapon_choices(missing(weapons, 7), true)
    }
}

/// Lists everything that a level-up can grant.
pub fn get_upgrade_options(game_data: &GameData, inventory: &WeaponInventory) -> (options: Vec<UpgradeChoice>)
    ensures
        options@ == upgrade_options(*game_data, inventory.weapons@),
{
    let mut options: Vec<UpgradeChoice> = Vec::new();
    if inventory.all_weapons_maxed() {
        if game_data.lives < game_data.max_lives {
            options.push(UpgradeChoice::RestoreLives);
        }
        if game_data.shield < game_data.max_shield {
            options.push(UpgradeChoice::RestoreShield);
        }
        if options.len() == 0 {
            options.push(UpgradeChoice::RestoreLives);
            options.push(UpgradeChoice::RestoreShield);
        }
        assert(options@ =~= restore_choices(*game_data));
        return options;
    }
    let mut i: usize = 0;
    while i < inventory.weapons.len()
        invariant
            i <= inventory.weapons@.len(),
            options@ == weapon_choices(improvable(inventory.weapons@, i as int), false),
        decreases inventory.weapons@.len() - i,
    {
        if inventory.weapons[i].level < 5 {
            options.push(UpgradeChoice::Weapon { weapon_type: inventory.weapons[i].weapon_type, is_new: false });
        }
        i = i + 1;
        assert(options@ =~= weapon_choices(improvable(inventory.weapons@, i as int), false));
    }
    if inventory.weapons.len() < 5 {
        let all = WeaponType::all();
        let ghost held = options@;
        let mut k: usize = 0;
        while k < all.len()
            invariant
                k <= all@.len(),
                all@ == WeaponType::all_types(),
                all@.len() == 7,
                options@ == held + weapon_choices(missing(inventory.weapons@, k as int), true),
            decreases all@.len() - k,
        {
            if inventory.position(all[k]).is_none() {
                options.push(UpgradeChoice::Weapon { weapon_type: all[k], is_new: true });
            }
            k = k + 1;
            assert(options@ =~= held + weapon_choices(missing(inventory.weapons@, k as int), true));
        }
    }
    options
}

/// Number of choices that a level-up shows at most.
pub const OFFERS: usize = 3;

/// The choices shown, given all of them in the drawn order: the first three.
pub fn pick_offers(shuffled: Vec<UpgradeChoice>) -> (offers: Vec<UpgradeChoice>)
    ensures
        offers@ == shuffled@.take(min_int(shuffled@.len() as int, OFFERS as int)),
{
    let mut offers = shuffled;
    offers.truncate(OFFERS);
    assert(offers@ =~= shuffled@.take(min_int(shuffled@.len() as int, OFFERS as int)));
    offers
}

/// While the player is prompted for an upgrade, draws the choices to show:
/// up to three of all that can be granted, none more often than it can be
/// granted. With nothing to grant the prompt is withdrawn.
pub fn check_level_up(game_data: &mut GameData, inventory: &WeaponInventory) -> (offers: Vec<UpgradeChoice>)
    ensures
        !old(game_data).upgrading ==> offers@.len() == 0,
        old(game_data).upgrading ==> offers@.len() == min_int(
            upgrade_options(*old(game_data), inventory.weapons@).len() as int,
            OFFERS as int,
        ),
        offers@.to_multiset().subset_of(upgrade_options(*old(game_data), inventory.weapons@).to_multiset()),
        *final(game_data) == if upgrade_options(*old(game_data), inventory.weapons@).len() == 0 {
            GameData { upgrading: false, ..*old(game_data) }
        } else {
            *old(game_data)
        },
{
    if !game_data.upgrading {
        let none: Vec<UpgradeChoice> = Vec::new();
        proof {
            none@.to_multiset_ensures();
            assert forall|c: UpgradeChoice| #[trigger] none@.to_multiset().count(c) == 0 by {
                if none@.to_multiset().count(c) > 0 {
                    assert(none@.contains(c));
                }
            }
        }
        return none;
    }
    let mut options = get_upgrade_options(game_data, inventory);
    if options.len() == 0 {
        game_data.upgrading = false;
        return options;
    }
    let ghost all = options@;
    shuffle_choices(&mut options);
    let ghost shuffled = options@;
    let offers = pick_offers(options);
    proof {
        let count = min_int(shuffled.len() as int, OFFERS as int);
        vstd::seq_lib::lemma_multiset_commutative(shuffled.take(count), shuffled.skip(count));
        assert(shuffled.take(count) + shuffled.skip(count) =~= shuffled);
        assert(all.to_multiset().len() == shuffled.to_multiset().len());
        all.to_multiset_ensures();
        shuffled.to_multiset_ensures();
        assert forall|c: UpgradeChoice| #[trigger]
            offers@.to_multiset().count(c) <= all.to_multiset().count(c) by {
            assert(shuffled.to_multiset().count(c) == shuffled.take(count).to_multiset().count(c) + shuffled.skip(
                count,
            ).to_multiset().count(c));
        }
    }
    offers
}

/// Progress and weapons after the player chose `choice`: the weapon is
/// granted, or a life or two points of shield restored; and the game goes on.
pub fn apply_upgrade(choice: UpgradeChoice, game_data: &mut GameData, inventory: &mut WeaponInventory)
    ensures
        final(inventory).weapons@ == match choice {
            UpgradeChoice::Weapon { weapon_type, is_new } => granted(old(inventory).weapons@, weapon_type),
            _ => old(inventory).weapons@,
        },
        final(inventory).has_default_bullet == match choice {
            UpgradeChoice::Weapon { weapon_type, is_new } => old(inventory).has_default_bullet && weapon_type
                == WeaponType::Aura,
            _ => old(inventory).has_default_bullet,
        },
        old(inventory).wf() ==> final(inventory).wf(),
        *final(game_data) == match choice {
            UpgradeChoice::Weapon { weapon_type, is_new } => GameData { upgrading: false, ..*old(game_data) },
            UpgradeChoice::RestoreLives => GameData {
                lives: min_int(old(game_data).lives + 1, old(game_data).max_lives as int) as u32,
                upgrading: false,
                ..*old(game_data)
            },
            UpgradeChoice::RestoreShield => GameData {
                shield: min_int(old(game_data).shield + 2, old(game_data).max_shield as int) as u32,
                upgrading: false,
                ..*old(game_data)
            },
        },
{
    match choice {
        UpgradeChoice::Weapon { weapon_type, is_new } => {
            inventory.add_or_upgrade(weapon_type);
        },
        UpgradeChoice::RestoreLives => {
            game_data.heal(1);
        },
        UpgradeChoice::RestoreShield => {
            game_data.restore_shield(2);
        },
    }
    game_data.upgrading = false;
}

/// What is kept between runs, as far as the rules of the game read it.
#[derive(Clone, Copy, PartialEq, Eq, Structural, Debug)]
pub struct SaveData {
    pub high_score: u32,
    pub total_coins: u32,
    /// Whether the player has ever sponsored the game.
    pub has_purchased: bool,
    /// Level of the hull upgrade, 0 to 2.
    pub hull_upgrade_level: u8,
    /// Level of the shield upgrade, 0 to 2.
    pub shield_upgrade_level: u8,
    /// Level of the upgrade of the most lives, 0 or 1.
    pub max_lives_upgrade_level: u8,
    /// Level of the upgrade of the most shield, 0 or 1.
    pub max_shield_upgrade_level: u8,
}

impl Default for SaveData {
    fn default() -> (data: SaveData)
        ensures
            data == (SaveData {
                high_score: 0,
                total_coins: 0,
                has_purchased: false,
                hull_upgrade_level: 0,
                shield_upgrade_level: 0,
                max_lives_upgrade_level: 0,
                max_shield_upgrade_level: 0,
            }),
    {
        SaveData {
            high_score: 0,
            total_coins: 0,
            has_purchased: false,
            hull_upgrade_level: 0,
            shield_upgrade_level: 0,
            max_lives_upgrade_level: 0,
            max_shield_upgrade_level: 0,
        }
    }
}

/// The permanent upgrades.
#[derive(Clone, Copy, PartialEq, Eq, Structural, Debug)]
pub enum PermanentUpgrade {
    Hull,
    Shield,
    MaxLives,
    MaxShield,
}

/// Price of the next level of a hull or shield upgrade: 30 coins for the
/// first, 100 for the second, and no further level.
pub open spec fn start_cost(level: int) -> Option<int> {
    if level == 0 {
        Some(30)
    } else if level == 1 {
        Some(100)
    } else {
        None
    }
}

/// Price of the upgrade of the most lives or the most shield: 50 coins, once.
pub open spec fn cap_cost(level: int) -> Option<int> {
    if level == 0 {
        Some(50)
    } else {
        None
    }
}

pub fn start_upgrade_cost(current_level: u8) -> (cost: Option<u32>)
    ensures
        match cost {
            Some(c) => start_cost(current_level as int) == Some(c as int),
            None => start_cost(current_level as int) is None,
        },
{
    match current_level {
        0 => Some(30),
        1 => Some(100),
        _ => None,
    }
}

pub fn cap_upgrade_cost(current_level: u8) -> (cost: Option<u32>)
    ensures
        match cost {
            Some(c) => cap_cost(current_level as int) == Some(c as int),
            None => cap_cost(current_level as int) is None,
        },
{
    match current_level {
        0 => Some(50),
        _ => None,
    }
}

impl PermanentUpgrade {
    /// Highest level of the upgrade.
    pub open spec fn cap(self) -> int {
        match self {
            PermanentUpgrade::Hull | PermanentUpgrade::Shield => 2,
            PermanentUpgrade::MaxLives | PermanentUpgrade::MaxShield => 1,
        }
    }

    /// Price of the level after `level`.
    pub open spec fn price(self, level: int) -> Option<int> {
        match self {
            PermanentUpgrade::Hull | PermanentUpgrade::Shield => start_cost(level),
            PermanentUpgrade::MaxLives | PermanentUpgrade::MaxShield => cap_cost(level),
        }
    }
}

impl SaveData {
    /// Level of the upgrade `kind`.
    pub open spec fn level_of(self, kind: PermanentUpgrade) -> int {
        match kind {
            PermanentUpgrade::Hull => self.hull_upgrade_level as int,
            PermanentUpgrade::Shield => self.shield_upgrade_level as int,
            PermanentUpgrade::MaxLives => self.max_lives_upgrade_level as int,
            PermanentUpgrade::MaxShield => self.max_shield_upgrade_level as int,
        }
    }

    /// The data with the upgrade `kind` at `level`.
    pub open spec fn with_level(self, kind: PermanentUpgrade, level: u8) -> SaveData {
        match kind {
            PermanentUpgrade::Hull => SaveData { hull_upgrade_level: level, ..self },
            PermanentUpgrade::Shield => SaveData { shield_upgrade_level: level, ..self },
            PermanentUpgrade::MaxLives => SaveData { max_lives_upgrade_level: level, ..self },
            PermanentUpgrade::MaxShield => SaveData { max_shield_upgrade_level: level, ..self },
        }
    }

    /// Whether the next level of `kind` can be bought: there is one, and the coins suffice.
    pub open spec fn affordable(self, kind: PermanentUpgrade) -> bool {
        kind.price(self.level_of(kind)) matches Some(cost) && self.total_coins >= cost
    }

    /// The data after the next level of `kind` was bought.
    pub open spec fn bought(self, kind: PermanentUpgrade) -> SaveData {
        let cost = kind.price(self.level_of(kind))->0;
        SaveData { total_coins: (self.total_coins - cost) as u32, ..self }.with_level(
            kind,
            min_int(self.level_of(kind) + 1, kind.cap()) as u8,
        )
    }

    /// Buys the next level of the upgrade `kind` where that is possible.
    /// Returns whether it was bought.
    pub fn purchase(&mut self, kind: PermanentUpgrade) -> (done: bool)
        ensures
            done == old(self).affordable(kind),
            *final(self) == if done {
                old(self).bought(kind)
            } else {
                *old(self)
            },
    {
        let (level, cost) = match kind {
            PermanentUpgrade::Hull => (self.hull_upgrade_level, start_upgrade_cost(self.hull_upgrade_level)),
            PermanentUpgrade::Shield => (self.shield_upgrade_level, start_upgrade_cost(self.shield_upgrade_level)),
            PermanentUpgrade::MaxLives => (
                self.max_lives_upgrade_level,
                cap_upgrade_cost(self.max_lives_upgrade_level),
            ),
            PermanentUpgrade::MaxShield => (
                self.max_shield_upgrade_level,
                cap_upgrade_cost(self.max_shield_upgrade_level),
            ),
        };
        let cost = match cost {
            Some(cost) => cost,
            None => {
                return false;
            },
        };
        if self.total_coins < cost {
            return false;
        }
        self.total_coins -= cost;
        match kind {
            PermanentUpgrade::Hull => {
                self.hull_upgrade_level = level + 1;
            },
            PermanentUpgrade::Shield => {
                self.shield_upgrade_level = level + 1;
            },
            PermanentUpgrade::MaxLives => {
                self.max_lives_upgrade_level = level + 1;
            },
            PermanentUpgrade::MaxShield => {
                self.max_shield_upgrade_level = level + 1;
            },
        }
        true
    }

    /// The data after a run: its coins are banked and the high score is raised to its score.
    pub open spec fn settled(self, game: GameData) -> SaveData {
        SaveData {
            total_coins: (self.total_coins + game.coins) as u32,
            high_score: max_int(self.high_score as int, game.score as int) as u32,
            ..self
        }
    }

    /// Takes over what a run leaves behind.
    pub fn settle(&mut self, game_data: &GameData)
        requires
            old(self).total_coins + game_data.coins <= u32::MAX,
        ensures
            *final(self) == old(self).settled(*game_data),
    {
        self.total_coins += game_data.coins;
        if game_data.score > self.high_score {
            self.high_score = game_data.score;
        }
    }

    /// Books a sponsorship: 100 coins, and the player counts as a sponsor.
    pub fn reward_sponsor(&mut self)
        requires
            old(self).total_coins + 100 <= u32::MAX,
        ensures
            *final(self) == (SaveData {
                total_coins: (old(self).total_coins + 100) as u32,
                has_purchased: true,
                ..*old(self)
            }),
    {
        self.total_coins += 100;
        self.has_purchased = true;
    }
}

/// The progress with which a run starts: as after a reset, with one more
/// life at the most for each level of the hull upgrade and two more points of
/// shield at the most for each level of the shield upgrade.
pub open spec fn run_started(game: GameData, save: SaveData) -> GameData {
    let max_lives = 5 + save.hull_upgrade_level;
    let max_shield = 4 + save.shield_upgrade_level * 2;
    GameData {
        high_score: game.high_score,
        max_lives: max_lives as u32,
        max_shield: max_shield as u32,
        lives: min_int(3, max_lives) as u32,
        shield: 0,
        ..GameData::initial()
    }
}

/// Starts a run.
pub fn start_run(game_data: &mut GameData, save_data: &SaveData)
    ensures
        *final(game_data) == run_started(*old(game_data), *save_data),
{
    game_data.reset();
    game_data.max_lives = 5 + save_data.hull_upgrade_level as u32;
    game_data.max_shield = 4 + save_data.shield_upgrade_level as u32 * 2;
    if game_data.lives > game_data.max_lives {
        game_data.lives = game_data.max_lives;
    }
    if game_data.shield > game_data.max_shield {
        game_data.shield = game_data.max_shield;
    }
}

/// What the player does that moves the program from phase to phase.
#[derive(Clone, Copy, PartialEq, Eq, Structural, Debug)]
pub enum Command {
    /// Start a run, from the menu or after a game is over.
    Start,
    /// The escape key.
    Escape,
    /// The space bar.
    Space,
    /// Open the sponsoring screen, from the menu.
    Recharge,
    /// Go back to the menu.
    Menu,
}

/// The phase after `command`. Escape pauses a game; escape or the space bar
/// takes it up again. A command that means nothing in a phase leaves it.
pub open spec fn next_phase(state: GameState, command: Command) -> GameState {
    match (state, command) {
        (GameState::Menu, Command::Start) => GameState::Playing,
        (GameState::Menu, Command::Space) => GameState::Playing,
        (GameState::Menu, Command::Recharge) => GameState::Recharge,
        (GameState::Playing, Command::Escape) => GameState::Paused,
        (GameState::Paused, Command::Escape) => GameState::Playing,
        (GameState::Paused, Command::Space) => GameState::Playing,
        (GameState::Paused, Command::Menu) => GameState::Menu,
        (GameState::GameOver, Command::Start) => GameState::Playing,
        (GameState::GameOver, Command::Menu) => GameState::Menu,
        (GameState::Recharge, Command::Menu) => GameState::Menu,
        _ => state,
    }
}

/// The phase after `command`.
pub fn handle_command(state: GameState, command: Command) -> (next: GameState)
    ensures
        next == next_phase(state, command),
{
    match (state, command) {
        (GameState::Menu, Command::Start) => GameState::Playing,
        (GameState::Menu, Command::Space) => GameState::Playing,
        (GameState::Menu, Command::Recharge) => GameState::Recharge,
        (GameState::Playing, Command::Escape) => GameState::Paused,
        (GameState::Paused, Command::Escape) => GameState::Playing,
        (GameState::Paused, Command::Space) => GameState::Playing,
        (GameState::Paused, Command::Menu) => GameState::Menu,
        (GameState::GameOver, Command::Start) => GameState::Playing,
        (GameState::GameOver, Command::Menu) => GameState::Menu,
        (GameState::Recharge, Command::Menu) => GameState::Menu,
        _ => state,
    }
}

/// While paused: whether the game is taken up again.
pub fn handle_unpause_input(escape: bool, space: bool) -> (next: Option<GameState>)
    ensures
        next == if escape || space {
            Some(GameState::Playing)
        } else {
            None
        },
{
    if escape || space {
        Some(GameState::Playing)
    } else {
        None
    }
}

/// While loading: lets the time run; after half a second the menu is shown.
pub fn transition_to_menu(elapsed: &mut u64, delta: u32) -> (next: Option<GameState>)
    requires
        *old(elapsed) + delta <= u64::MAX,
    ensures
        *final(elapsed) == *old(elapsed) + delta,
        next == if *old(elapsed) + delta > LOADING_TIME {
            Some(GameState::Menu)
        } else {
            None
        },
{
    *elapsed += delta as u64;
    if *elapsed > LOADING_TIME {
        Some(GameState::Menu)
    } else {
        None
    }
}

/// Whether the simulation runs in this frame: a game is being played and the
/// player is not choosing an upgrade.
pub fn simulation_runs(state: GameState, game_data: &GameData) -> (runs: bool)
    ensures
        runs == (state == GameState::Playing && !game_data.upgrading),
{
    state == GameState::Playing && !game_data.upgrading
}

/// A permanent upgrade never rises above its cap, and buying it costs its price.
pub proof fn lemma_purchase(save: SaveData, kind: PermanentUpgrade)
    requires
        save.affordable(kind),
    ensures
        save.bought(kind).level_of(kind) == save.level_of(kind) + 1,
        save.bought(kind).level_of(kind) <= kind.cap(),
        save.bought(kind).total_coins == save.total_coins - kind.price(save.level_of(kind))->0,
{
}

} // verus!
