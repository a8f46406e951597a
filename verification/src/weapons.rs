//! The player's weapons: the seven kinds, their levels and the inventory.

use vstd::prelude::*;

verus! {

/// The seven weapons that an upgrade can grant.
#[derive(Clone, Copy, PartialEq, Eq, Structural, Debug, Hash)]
pub enum WeaponType {
    /// Pellets in a narrow cone.
    Shotgun,
    /// Rockets that explode on contact.
    Rocket,
    /// Long beams that pass through enemies.
    Laser,
    /// Missiles that steer towards the nearest enemy.
    Homing,
    /// A chain of lightning from enemy to enemy.
    Lightning,
    /// Orbs that circle the ship and swallow enemy bullets.
    Aura,
    /// A wide crescent wave.
    Beam,
}

/// Highest level of a weapon.
pub const MAX_WEAPON_LEVEL: u32 = 5;

/// Number of weapons that an inventory holds at most.
pub const MAX_WEAPONS: usize = 5;

impl WeaponType {
    /// All kinds, in the order in which upgrades offer them.
    pub open spec fn all_types() -> Seq<WeaponType> {
        seq![
            WeaponType::Shotgun,
            WeaponType::Rocket,
            WeaponType::Laser,
            WeaponType::Homing,
            WeaponType::Lightning,
            WeaponType::Aura,
            WeaponType::Beam,
        ]
    }

    /// Display name.
    pub open spec fn display_name(self) -> Seq<char> {
        match self {
            WeaponType::Shotgun => "霰弹枪"@,
            WeaponType::Rocket => "导弹"@,
            WeaponType::Laser => "激光"@,
            WeaponType::Homing => "自导导弹"@,
            WeaponType::Lightning => "闪电链"@,
            WeaponType::Aura => "护身光球"@,
            WeaponType::Beam => "光柱"@,
        }
    }

    /// One-letter code.
    pub open spec fn letter(self) -> char {
        match self {
            WeaponType::Shotgun => 'S',
            WeaponType::Rocket => 'R',
            WeaponType::Laser => 'L',
            WeaponType::Homing => 'H',
            WeaponType::Lightning => 'B',
            WeaponType::Aura => 'A',
            WeaponType::Beam => 'C',
        }
    }

    /// Time between two shots at level 1, in microseconds. The aura is passive.
    pub open spec fn cooldown_base(self) -> int {
        match self {
            WeaponType::Shotgun => 150_000,
            WeaponType::Rocket => 600_000,
            WeaponType::Laser => 250_000,
            WeaponType::Homing => 150_000,
            WeaponType::Lightning => 500_000,
            WeaponType::Aura => 0,
            WeaponType::Beam => 2_000_000,
        }
    }

    /// Time between two shots at `level`: a tenth of the base less for each level above the first.
    pub open spec fn cooldown_at(self, level: int) -> int {
        self.cooldown_base() * (11 - level) / 10
    }

    pub fn name(&self) -> (name: &'static str)
        ensures
            name@ == self.display_name(),
    {
        match self {
            WeaponType::Shotgun => "霰弹枪",
            WeaponType::Rocket => "导弹",
            WeaponType::Laser => "激光",
            WeaponType::Homing => "自导导弹",
            WeaponType::Lightning => "闪电链",
            WeaponType::Aura => "护身光球",
            WeaponType::Beam => "光柱",
        }
    }

    pub fn code(&self) -> (code: char)
        ensures
            code == self.letter(),
    {
        match self {
            WeaponType::Shotgun => 'S',
            WeaponType::Rocket => 'R',
            WeaponType::Laser => 'L',
            WeaponType::Homing => 'H',
            WeaponType::Lightning => 'B',
            WeaponType::Aura => 'A',
            WeaponType::Beam => 'C',
        }
    }

    pub fn all() -> (kinds: Vec<WeaponType>)
        ensures
            kinds@ == WeaponType::all_types(),
    {
        let mut kinds: Vec<WeaponType> = Vec::new();
        kinds.push(WeaponType::Shotgun);
        kinds.push(WeaponType::Rocket);
        kinds.push(WeaponType::Laser);
        kinds.push(WeaponType::Homing);
        kinds.push(WeaponType::Lightning);
        kinds.push(WeaponType::Aura);
        kinds.push(WeaponType::Beam);
        kinds
    }

    pub fn base_cooldown(&self) -> (cooldown: u32)
        ensures
            cooldown == self.cooldown_base(),
    {
        match self {
            WeaponType::Shotgun => 150_000,
            WeaponType::Rocket => 600_000,
            WeaponType::Laser => 250_000,
            WeaponType::Homing => 150_000,
            WeaponType::Lightning => 500_000,
            WeaponType::Aura => 0,
            WeaponType::Beam => 2_000_000,
        }
    }
}

/// Every kind occurs in `all_types`, once.
pub proof fn lemma_all_types_complete(kind: WeaponType)
    ensures
        exists|i: int| 0 <= i < 7 && #[trigger] WeaponType::all_types()[i] == kind,
        forall|i: int, j: int|
            0 <= i < j < 7 ==> #[trigger] WeaponType::all_types()[i] != #[trigger] WeaponType::all_types()[j],
{
    let all = WeaponType::all_types();
    assert(all[0] == WeaponType::Shotgun);
    assert(all[1] == WeaponType::Rocket);
    assert(all[2] == WeaponType::Laser);
    assert(all[3] == WeaponType::Homing);
    assert(all[4] == WeaponType::Lightning);
    assert(all[5] == WeaponType::Aura);
    assert(all[6] == WeaponType::Beam);
}

/// One weapon of the inventory.
#[derive(Clone, Copy, PartialEq, Eq, Structural, Debug)]
pub struct Weapon {
    pub weapon_type: WeaponType,
    /// 1 to 5.
    pub level: u32,
    /// Time between two shots, in microseconds.
    pub cooldown: u32,
    /// Time until the next shot, in microseconds; the weapon fires at zero or below.
    pub timer: i64,
}

impl Weapon {
    /// The level is between 1 and 5 and the cooldown is the one of that level.
    pub open spec fn wf(self) -> bool {
        &&& 1 <= self.level <= MAX_WEAPON_LEVEL
        &&& self.cooldown == self.weapon_type.cooldown_at(self.level as int)
    }

    /// A weapon of the first level, ready to fire.
    pub open spec fn fresh(weapon_type: WeaponType) -> Weapon {
        Weapon { weapon_type, level: 1, cooldown: weapon_type.cooldown_base() as u32, timer: 0 }
    }

    /// The weapon one level higher, with that level's cooldown; unchanged at the highest level.
    pub open spec fn leveled_up(self) -> Weapon {
        if self.level < MAX_WEAPON_LEVEL {
            Weapon {
                level: (self.level + 1) as u32,
                cooldown: self.weapon_type.cooldown_at(self.level + 1) as u32,
                ..self
            }
        } else {
            self
        }
    }

    pub fn new(weapon_type: WeaponType) -> (weapon: Weapon)
        ensures
            weapon == Weapon::fresh(weapon_type),
            weapon.wf(),
    {
        Weapon { weapon_type, level: 1, cooldown: weapon_type.base_cooldown(), timer: 0 }
    }

    pub fn is_max_level(&self) -> (maxed: bool)
        ensures
            maxed == (self.level >= MAX_WEAPON_LEVEL),
    {
        self.level >= 5
    }

    pub fn level_up(&mut self)
        ensures
            *final(self) == old(self).leveled_up(),
            old(self).wf() ==> final(self).wf(),
    {
        if self.level < 5 {
            self.level += 1;
            let base = self.weapon_type.base_cooldown() as u64;
            let tenths = 11 - self.level as u64;
            assert(0 <= base * tenths <= 2_000_000 * 10) by (nonlinear_arith)
                requires
                    0 <= base <= 2_000_000,
                    0 <= tenths <= 10,
            ;
            self.cooldown = (base * tenths / 10) as u32;
        }
    }
}

/// Index of the first weapon of `weapon_type` at or after `from`.
pub open spec fn find_weapon(weapons: Seq<Weapon>, weapon_type: WeaponType, from: int) -> Option<int>
    decreases weapons.len() - from,
{
    if from < 0 || from >= weapons.len() {
        None
    } else if weapons[from].weapon_type == weapon_type {
        Some(from)
    } else {
        find_weapon(weapons, weapon_type, from + 1)
    }
}

/// `find_weapon` finds a weapon exactly when one is there.
pub proof fn lemma_find_weapon(weapons: Seq<Weapon>, weapon_type: WeaponType, from: int)
    requires
        0 <= from,
    ensures
        match find_weapon(weapons, weapon_type, from) {
            Some(i) => from <= i < weapons.len() && weapons[i].weapon_type == weapon_type && forall|j: int|
                from <= j < i ==> (#[trigger] weapons[j]).weapon_type != weapon_type,
            None => forall|j: int| from <= j < weapons.len() ==> (#[trigger] weapons[j]).weapon_type != weapon_type,
        },
    decreases weapons.len() - from,
{
    if from < weapons.len() && weapons[from].weapon_type != weapon_type {
        lemma_find_weapon(weapons, weapon_type, from + 1);
    }
}

/// The weapons that the player's ship carries.
#[derive(Clone, Debug)]
pub struct WeaponInventory {
    pub weapons: Vec<Weapon>,
    /// Whether the ship still fires its plain bullet.
    pub has_default_bullet: bool,
}

impl Default for WeaponInventory {
    fn default() -> (inventory: WeaponInventory)
        ensures
            inventory.weapons@ == Seq::<Weapon>::empty(),
            !inventory.has_default_bullet,
    {
        WeaponInventory { weapons: Vec::new(), has_default_bullet: false }
    }
}

/// No kind occurs twice among `weapons`.
pub open spec fn distinct_types(weapons: Seq<Weapon>) -> bool {
    forall|i: int, j: int|
        0 <= i < j < weapons.len() ==> (#[trigger] weapons[i]).weapon_type != (#[trigger] weapons[j]).weapon_type
}

/// The weapons after `weapon_type` was granted: the weapon of that kind one
/// level higher where there is one, else one more weapon where five are not
/// reached, else the same.
pub open spec fn granted(weapons: Seq<Weapon>, weapon_type: WeaponType) -> Seq<Weapon> {
    match find_weapon(weapons, weapon_type, 0) {
        Some(i) => weapons.update(i, weapons[i].leveled_up()),
        None => if weapons.len() < MAX_WEAPONS {
            weapons.push(Weapon::fresh(weapon_type))
        } else {
            weapons
        },
    }
}

/// The kinds of the weapons among the first `upto` that are below the highest level, in order.
pub open spec fn improvable(weapons: Seq<Weapon>, upto: int) -> Seq<WeaponType>
    decreases upto,
{
    if upto <= 0 {
        Seq::empty()
    } else {
        let before = improvable(weapons, upto - 1);
        if weapons[upto - 1].level < MAX_WEAPON_LEVEL {
            before.push(weapons[upto - 1].weapon_type)
        } else {
            before
        }
    }
}

/// The kinds among the first `upto` of `all_types` that `weapons` lacks, in order.
pub open spec fn missing(weapons: Seq<Weapon>, upto: int) -> Seq<WeaponType>
    decreases upto,
{
    if upto <= 0 {
        Seq::empty()
    } else {
        let before = missing(weapons, upto - 1);
        if find_weapon(weapons, WeaponType::all_types()[upto - 1], 0) is None {
            before.push(WeaponType::all_types()[upto - 1])
        } else {
            before
        }
    }
}

/// What an upgrade can offer: the held weapons that can still rise, then,
/// while a slot is free, the kinds not held.
pub open spec fn upgradeable(weapons: Seq<Weapon>) -> Seq<WeaponType> {
    if weapons.len() >= MAX_WEAPONS {
        improvable(weapons, weapons.len() as int)
    } else {
        improvable(weapons, weapons.len() as int) + missing(weapons, 7)
    }
}

impl WeaponInventory {
    /// At most five weapons, no kind twice, every level between 1 and 5.
    pub open spec fn wf(self) -> bool {
        &&& self.weapons@.len() <= MAX_WEAPONS
        &&& distinct_types(self.weapons@)
        &&& forall|i: int| 0 <= i < self.weapons@.len() ==> (#[trigger] self.weapons@[i]).wf()
    }

    /// An empty inventory; the ship fires its plain bullet.
    pub fn new() -> (inventory: WeaponInventory)
        ensures
            inventory.weapons@ == Seq::<Weapon>::empty(),
            inventory.has_default_bullet,
            inventory.wf(),
    {
        WeaponInventory { weapons: Vec::new(), has_default_bullet: true }
    }

    pub fn weapon_count(&self) -> (count: usize)
        ensures
            count == self.weapons@.len(),
    {
        self.weapons.len()
    }

    pub fn is_full(&self) -> (full: bool)
        ensures
            full == (self.weapons@.len() >= MAX_WEAPONS),
    {
        self.weapons.len() >= 5
    }

    /// Whether the inventory is full and every weapon is at the highest level.
    pub fn all_weapons_maxed(&self) -> (maxed: bool)
        ensures
            maxed == (self.weapons@.len() >= MAX_WEAPONS && forall|i: int|
                0 <= i < self.weapons@.len() ==> (#[trigger] self.weapons@[i]).level >= MAX_WEAPON_LEVEL),
    {
        if self.weapons.len() < 5 {
            return false;
        }
        let mut i: usize = 0;
        while i < self.weapons.len()
            invariant
                i <= self.weapons@.len(),
                forall|k: int| 0 <= k < i ==> (#[trigger] self.weapons@[k]).level >= MAX_WEAPON_LEVEL,
            decreases self.weapons@.len() - i,
        {
            if !self.weapons[i].is_max_level() {
                return false;
            }
            i = i + 1;
        }
        true
    }

    /// Index of the weapon of `weapon_type`, the first where there are several.
    pub fn position(&self, weapon_type: WeaponType) -> (found: Option<usize>)
        ensures
            match found {
                Some(i) => find_weapon(self.weapons@, weapon_type, 0) == Some(i as int),
                None => find_weapon(self.weapons@, weapon_type, 0) is None,
            },
    {
        let mut i: usize = 0;
        while i < self.weapons.len()
            invariant
                i <= self.weapons@.len(),
                find_weapon(self.weapons@, weapon_type, 0) == find_weapon(self.weapons@, weapon_type, i as int),
            decreases self.weapons@.len() - i,
        {
            if self.weapons[i].weapon_type == weapon_type {
                return Some(i);
            }
            i = i + 1;
        }
        None
    }

    /// The weapon of `weapon_type`, if the inventory holds one.
    pub fn get_weapon(&self, weapon_type: WeaponType) -> (found: Option<&Weapon>)
        ensures
            match found {
                Some(weapon) => find_weapon(self.weapons@, weapon_type, 0) matches Some(i) && *weapon
                    == self.weapons@[i],
                None => find_weapon(self.weapons@, weapon_type, 0) is None,
            },
    {
        match self.position(weapon_type) {
            Some(i) => {
                proof {
                    lemma_find_weapon(self.weapons@, weapon_type, 0);
                }
                Some(&self.weapons[i])
            },
            None => None,
        }
    }

    /// Grants `weapon_type`: raises the weapon of that kind by a level, or adds
    /// it at level 1 while fewer than five are held. Any kind but the aura
    /// retires the plain bullet.
    pub fn add_or_upgrade(&mut self, weapon_type: WeaponType)
        ensures
            final(self).weapons@ == granted(old(self).weapons@, weapon_type),
            final(self).has_default_bullet == (old(self).has_default_bullet && weapon_type == WeaponType::Aura),
            old(self).wf() ==> final(self).wf(),
    {
        if self.has_default_bullet && weapon_type != WeaponType::Aura {
            self.has_default_bullet = false;
        }
        proof {
            lemma_find_weapon(self.weapons@, weapon_type, 0);
        }
        match self.position(weapon_type) {
            Some(i) => {
                let mut weapon = self.weapons[i];
                weapon.level_up();
                self.weapons.set(i, weapon);
            },
            None => {
                if self.weapons.len() < 5 {
                    self.weapons.push(Weapon::new(weapon_type));
                }
            },
        }
    }

    /// What an upgrade can offer.
    pub fn get_upgradeable_weapons(&self) -> (kinds: Vec<WeaponType>)
        ensures
            kinds@ == upgradeable(self.weapons@),
    {
        let mut result: Vec<WeaponType> = Vec::new();
        let mut i: usize = 0;
        while i < self.weapons.len()
            invariant
                i <= self.weapons@.len(),
                result@ == improvable(self.weapons@, i as int),
            decreases self.weapons@.len() - i,
        {
            if !self.weapons[i].is_max_level() {
                result.push(self.weapons[i].weapon_type);
            }
            i = i + 1;
        }
        if !self.is_full() {
            let all = WeaponType::all();
            let ghost held = result@;
            let mut k: usize = 0;
            while k < all.len()
                invariant
                    k <= all@.len(),
                    all@ == WeaponType::all_types(),
                    all@.len() == 7,
                    result@ == held + missing(self.weapons@, k as int),
                decreases all@.len() - k,
            {
                if self.position(all[k]).is_none() {
                    result.push(all[k]);
                }
                k = k + 1;
            }
        }
        result
    }
}

} // verus!
