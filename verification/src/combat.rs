//! Combat resolution for regular enemies: which collisions count, what they
//! do to enemies and projectiles, and what a rocket's explosion reaches.

use vstd::prelude::*;
use crate::collision::{CollisionEvent, CollisionLayer};
use crate::enemy::{apply_direct_damage, drops_coin, rewarded, Enemy};
use crate::geometry::{lemma_square_bound, Vec2D};
use crate::projectiles::{
    consume_pierce, pierce_after_hit, Bullet, HitList, Pierce, Piercing, RocketBullet, WeaponBullet,
};
use crate::states::GameData;
use crate::weapons::WeaponType;

verus! {

/// A regular enemy of the frame's snapshot.
#[derive(Clone, Copy, PartialEq, Eq, Structural, Debug)]
pub struct EnemyUnit {
    pub entity: u64,
    pub position: Vec2D,
    /// Set once the enemy is destroyed. A destroyed enemy takes part in nothing.
    pub despawned: bool,
    pub enemy: Enemy,
}

/// A projectile of the player of the frame's snapshot, with the components it carries.
#[derive(Clone, Debug)]
pub struct Projectile {
    pub entity: u64,
    pub position: Vec2D,
    /// Set once the projectile is used up. A projectile that is used up takes part in nothing.
    pub despawned: bool,
    pub bullet: Option<Bullet>,
    pub weapon_bullet: Option<WeaponBullet>,
    pub pierce: Option<Pierce>,
    pub hit_list: Option<HitList>,
    pub rocket: Option<RocketBullet>,
}

/// A projectile as a value: the hit list is the sequence of its entries.
pub struct ProjectileView {
    pub entity: u64,
    pub position: Vec2D,
    pub despawned: bool,
    pub bullet: Option<Bullet>,
    pub weapon_bullet: Option<WeaponBullet>,
    pub pierce: Option<Pierce>,
    pub hit_list: Option<Seq<u64>>,
    pub rocket: Option<RocketBullet>,
}

impl View for Projectile {
    type V = ProjectileView;

    open spec fn view(&self) -> ProjectileView {
        ProjectileView {
            entity: self.entity,
            position: self.position,
            despawned: self.despawned,
            bullet: self.bullet,
            weapon_bullet: self.weapon_bullet,
            pierce: self.pierce,
            hit_list: match self.hit_list {
                Some(list) => Some(list@),
                None => None,
            },
            rocket: self.rocket,
        }
    }
}

/// The projectiles as values.
pub open spec fn views(projectiles: Seq<Projectile>) -> Seq<ProjectileView> {
    Seq::new(projectiles.len(), |k: int| projectiles[k]@)
}

/// Something for the host to show. Effects take no part in the simulation.
#[derive(Clone, Copy, PartialEq, Eq, Structural, Debug)]
pub enum Effect {
    /// Sparks where a projectile struck.
    HitSparks { position: Vec2D },
    /// The burst of shards of an exploding rocket.
    RocketExplosion { position: Vec2D, shard_count: u32, base_speed: u32 },
}

/// Index of the first enemy at or after `from` that has the handle `entity` and is not destroyed.
pub open spec fn find_enemy(enemies: Seq<EnemyUnit>, entity: u64, from: int) -> Option<int>
    decreases enemies.len() - from,
{
    if from < 0 || from >= enemies.len() {
        None
    } else if enemies[from].entity == entity && !enemies[from].despawned {
        Some(from)
    } else {
        find_enemy(enemies, entity, from + 1)
    }
}

/// Index of the first projectile at or after `from` that has the handle `entity` and is not used up.
pub open spec fn find_projectile(projectiles: Seq<ProjectileView>, entity: u64, from: int) -> Option<int>
    decreases projectiles.len() - from,
{
    if from < 0 || from >= projectiles.len() {
        None
    } else if projectiles[from].entity == entity && !projectiles[from].despawned {
        Some(from)
    } else {
        find_projectile(projectiles, entity, from + 1)
    }
}

/// What `find_enemy` finds is in range, has the handle and is not destroyed.
pub proof fn lemma_find_enemy(enemies: Seq<EnemyUnit>, entity: u64, from: int)
    requires
        0 <= from,
    ensures
        find_enemy(enemies, entity, from) matches Some(i) ==> from <= i < enemies.len() && enemies[i].entity
            == entity && !enemies[i].despawned,
        find_enemy(enemies, entity, from) is None ==> forall|i: int|
            from <= i < enemies.len() ==> !((#[trigger] enemies[i]).entity == entity && !enemies[i].despawned),
    decreases enemies.len() - from,
{
    if from < enemies.len() && !(enemies[from].entity == entity && !enemies[from].despawned) {
        lemma_find_enemy(enemies, entity, from + 1);
    }
}

/// What `find_projectile` finds is in range, has the handle and is not used up.
pub proof fn lemma_find_projectile(projectiles: Seq<ProjectileView>, entity: u64, from: int)
    requires
        0 <= from,
    ensures
        find_projectile(projectiles, entity, from) matches Some(i) ==> from <= i < projectiles.len()
            && projectiles[i].entity == entity && !projectiles[i].despawned,
        find_projectile(projectiles, entity, from) is None ==> forall|i: int|
            from <= i < projectiles.len() ==> !((#[trigger] projectiles[i]).entity == entity
                && !projectiles[i].despawned),
    decreases projectiles.len() - from,
{
    if from < projectiles.len() && !(projectiles[from].entity == entity && !projectiles[from].despawned) {
        lemma_find_projectile(projectiles, entity, from + 1);
    }
}

/// Looks up an enemy by its handle.
pub fn enemy_index(enemies: &Vec<EnemyUnit>, entity: u64) -> (found: Option<usize>)
    ensures
        match found {
            Some(i) => find_enemy(enemies@, entity, 0) == Some(i as int) && i < enemies@.len(),
            None => find_enemy(enemies@, entity, 0) is None,
        },
{
    let mut i: usize = 0;
    while i < enemies.len()
        invariant
            i <= enemies@.len(),
            find_enemy(enemies@, entity, 0) == find_enemy(enemies@, entity, i as int),
        decreases enemies@.len() - i,
    {
        if enemies[i].entity == entity && !enemies[i].despawned {
            return Some(i);
        }
        i = i + 1;
    }
    None
}

/// Looks up a projectile by its handle.
pub fn projectile_index(projectiles: &Vec<Projectile>, entity: u64) -> (found: Option<usize>)
    ensures
        match found {
            Some(i) => find_projectile(views(projectiles@), entity, 0) == Some(i as int) && i < projectiles@.len(),
            None => find_projectile(views(projectiles@), entity, 0) is None,
        },
{
    let mut i: usize = 0;
    while i < projectiles.len()
        invariant
            i <= projectiles@.len(),
            find_projectile(views(projectiles@), entity, 0) == find_projectile(
                views(projectiles@),
                entity,
                i as int,
            ),
        decreases projectiles@.len() - i,
    {
        if projectiles[i].entity == entity && !projectiles[i].despawned {
            return Some(i);
        }
        i = i + 1;
    }
    None
}

/// Progress and enemies after enemy `i` took `damage`: at zero health or
/// below it is destroyed and its value awarded.
pub open spec fn hit_enemy(game: GameData, enemies: Seq<EnemyUnit>, boss_active: bool, i: int, damage: int) -> (
    GameData,
    Seq<EnemyUnit>,
) {
    let unit = enemies[i];
    let health = unit.enemy.health - damage;
    let struck = Enemy { health: health as i32, ..unit.enemy };
    if health <= 0 {
        (
            rewarded(game, boss_active, unit.enemy.score_value as int),
            enemies.update(i, EnemyUnit { despawned: true, enemy: struck, ..unit }),
        )
    } else {
        (game, enemies.update(i, EnemyUnit { enemy: struck, ..unit }))
    }
}

/// The value of the enemies that are not destroyed.
pub open spec fn pending_score(enemies: Seq<EnemyUnit>) -> int
    decreases enemies.len(),
{
    if enemies.len() == 0 {
        0
    } else {
        pending_score(enemies.drop_last()) + if enemies.last().despawned {
            0
        } else {
            enemies.last().enemy.score_value as int
        }
    }
}

/// The number of the enemies that are not destroyed.
pub open spec fn pending_count(enemies: Seq<EnemyUnit>) -> int
    decreases enemies.len(),
{
    if enemies.len() == 0 {
        0
    } else {
        pending_count(enemies.drop_last()) + if enemies.last().despawned {
            0int
        } else {
            1int
        }
    }
}

/// The counters can take the value of every enemy that is left: their score
/// and experience fit a `u32` even if all of them are destroyed, and so does the player level.
pub open spec fn headroom(game: GameData, enemies: Seq<EnemyUnit>) -> bool {
    &&& game.score + pending_score(enemies) <= u32::MAX
    &&& game.experience + pending_score(enemies) <= u32::MAX
    &&& game.player_level + pending_count(enemies) <= u32::MAX
}

/// What was awarded came out of what was pending: the score has grown by
/// exactly the value that is no longer pending, and experience and player
/// level by no more than the pending value and count have shrunk.
pub open spec fn paid_from_pending(
    before: GameData,
    pending_before: int,
    count_before: int,
    after: GameData,
    pending_after: int,
    count_after: int,
) -> bool {
    &&& after.score + pending_after == before.score + pending_before
    &&& after.experience + pending_after <= before.experience + pending_before
    &&& after.player_level + count_after <= before.player_level + count_before
}

/// Every enemy that is not destroyed has health left.
pub open spec fn enemies_sound(enemies: Seq<EnemyUnit>) -> bool {
    forall|i: int| 0 <= i < enemies.len() && !(#[trigger] enemies[i]).despawned ==> enemies[i].enemy.health > 0
}

/// No projectile heals: every damage is zero or more.
pub open spec fn projectiles_sound(projectiles: Seq<ProjectileView>) -> bool {
    forall|j: int|
        0 <= j < projectiles.len() ==> {
            &&& (#[trigger] projectiles[j]).bullet matches Some(b) ==> b.damage >= 0
            &&& projectiles[j].weapon_bullet matches Some(w) ==> w.damage >= 0
        }
}

/// `later` is `earlier` some events on: the same enemies at the same places,
/// and what was destroyed stays destroyed.
pub open spec fn evolved(earlier: Seq<EnemyUnit>, later: Seq<EnemyUnit>) -> bool {
    &&& earlier.len() == later.len()
    &&& forall|i: int|
        0 <= i < earlier.len() ==> {
            &&& (#[trigger] later[i]).entity == earlier[i].entity
            &&& later[i].position == earlier[i].position
            &&& later[i].enemy.score_value == earlier[i].enemy.score_value
            &&& earlier[i].despawned ==> later[i].despawned
        }
}

pub(crate) proof fn lemma_pending_nonnegative(enemies: Seq<EnemyUnit>)
    ensures
        pending_score(enemies) >= 0,
        pending_count(enemies) >= 0,
    decreases enemies.len(),
{
    if enemies.len() > 0 {
        lemma_pending_nonnegative(enemies.drop_last());
    }
}

pub(crate) proof fn lemma_pending_update(enemies: Seq<EnemyUnit>, i: int, unit: EnemyUnit)
    requires
        0 <= i < enemies.len(),
        !enemies[i].despawned,
        unit.enemy.score_value == enemies[i].enemy.score_value,
    ensures
        pending_score(enemies.update(i, unit)) == pending_score(enemies) - if unit.despawned {
            enemies[i].enemy.score_value as int
        } else {
            0
        },
        pending_count(enemies.update(i, unit)) == pending_count(enemies) - if unit.despawned {
            1int
        } else {
            0int
        },
    decreases enemies.len(),
{
    let updated = enemies.update(i, unit);
    if i == enemies.len() - 1 {
        assert(updated.drop_last() =~= enemies.drop_last());
    } else {
        lemma_pending_update(enemies.drop_last(), i, unit);
        assert(updated.drop_last() =~= enemies.drop_last().update(i, unit));
    }
}

/// Every coin among `drops` lies where an enemy was destroyed since `entry`.
pub open spec fn coins_accounted(entry: Seq<EnemyUnit>, now: Seq<EnemyUnit>, drops: Seq<Vec2D>) -> bool {
    forall|k: int| 0 <= k < drops.len() ==> destroyed_at(entry, now, #[trigger] drops[k])
}

/// An enemy at `spot` was destroyed between `entry` and `now`.
pub open spec fn destroyed_at(entry: Seq<EnemyUnit>, now: Seq<EnemyUnit>, spot: Vec2D) -> bool {
    exists|i: int|
        0 <= i < entry.len() && !entry[i].despawned && (#[trigger] now[i]).despawned && entry[i].position == spot
}

proof fn lemma_coins_carry_over(
    entry: Seq<EnemyUnit>,
    before: Seq<EnemyUnit>,
    now: Seq<EnemyUnit>,
    drops_before: Seq<Vec2D>,
    drops: Seq<Vec2D>,
    i: int,
)
    requires
        evolved(entry, before),
        evolved(before, now),
        coins_accounted(entry, before, drops_before),
        drops == drops_before || (drops == drops_before.push(before[i].position) && 0 <= i < before.len()
            && !before[i].despawned && now[i].despawned),
    ensures
        coins_accounted(entry, now, drops),
{
    assert forall|k: int| 0 <= k < drops.len() implies destroyed_at(entry, now, #[trigger] drops[k]) by {
        if k < drops_before.len() {
            assert(destroyed_at(entry, before, drops_before[k]));
            let m = choose|m: int|
                0 <= m < entry.len() && !entry[m].despawned && (#[trigger] before[m]).despawned && entry[m].position
                    == drops_before[k];
            assert(now[m].despawned);
        } else {
            assert(!entry[i].despawned);
            assert(now[i].despawned);
        }
    }
}

/// Enemy `i` takes `damage`. A coin that it leaves is added to `coin_drops`.
pub(crate) fn strike_enemy(
    game: &mut GameData,
    boss_active: bool,
    enemies: &mut Vec<EnemyUnit>,
    i: usize,
    damage: i32,
    coin_drops: &mut Vec<Vec2D>,
    Ghost(entry): Ghost<Seq<EnemyUnit>>,
)
    requires
        i < old(enemies)@.len(),
        !old(enemies)@[i as int].despawned,
        damage >= 0,
        enemies_sound(old(enemies)@),
        headroom(*old(game), old(enemies)@),
        evolved(entry, old(enemies)@),
        coins_accounted(entry, old(enemies)@, old(coin_drops)@),
    ensures
        (*final(game), final(enemies)@) == hit_enemy(*old(game), old(enemies)@, boss_active, i as int, damage as int),
        enemies_sound(final(enemies)@),
        headroom(*final(game), final(enemies)@),
        evolved(old(enemies)@, final(enemies)@),
        evolved(entry, final(enemies)@),
        coins_accounted(entry, final(enemies)@, final(coin_drops)@),
        forall|k: int|
            0 <= k < old(enemies)@.len() && k != i ==> (#[trigger] final(enemies)@[k]) == old(enemies)@[k],
        paid_from_pending(
            *old(game),
            pending_score(old(enemies)@),
            pending_count(old(enemies)@),
            *final(game),
            pending_score(final(enemies)@),
            pending_count(final(enemies)@),
        ),
{
    let mut unit = enemies[i];
    proof {
        lemma_pending_nonnegative(enemies@);
        lemma_pending_update(enemies@, i as int, EnemyUnit { despawned: true, ..unit });
        lemma_pending_nonnegative(enemies@.update(i as int, EnemyUnit { despawned: true, ..unit }));
        let value = unit.enemy.score_value as int;
        if !boss_active && unit.enemy.health - damage <= 0 {
            crate::states::lemma_experience_bounds(game.with_score(value), value);
        }
    }
    let ghost before = enemies@;
    let ghost drops_before = coin_drops@;
    let killed = apply_direct_damage(game, boss_active, &mut unit.enemy, damage);
    if killed {
        unit.despawned = true;
    }
    let coin = drops_coin(killed);
    if coin {
        coin_drops.push(unit.position);
    }
    enemies.set(i, unit);
    proof {
        lemma_pending_update(before, i as int, unit);
        lemma_coins_carry_over(entry, before, enemies@, drops_before, coin_drops@, i as int);
    }
}

/// Whether the explosion of radius `radius` at `center` reaches the enemy:
/// it is not destroyed and its centre is no further away than the radius.
pub open spec fn in_blast(unit: EnemyUnit, center: Vec2D, radius: int) -> bool {
    !unit.despawned && unit.position.dist_sq(center) <= radius * radius
}

/// The indices below `upto` of the enemies that the explosion reaches, ascending.
pub open spec fn blast_targets(enemies: Seq<EnemyUnit>, center: Vec2D, radius: int, upto: int) -> Seq<usize>
    decreases upto,
{
    if upto <= 0 {
        Seq::empty()
    } else {
        let before = blast_targets(enemies, center, radius, upto - 1);
        if in_blast(enemies[upto - 1], center, radius) {
            before.push((upto - 1) as usize)
        } else {
            before
        }
    }
}

/// The targets of an explosion are exactly the enemies that it reaches, each
/// once and in ascending order.
pub proof fn lemma_blast_targets(enemies: Seq<EnemyUnit>, center: Vec2D, radius: int, upto: int)
    requires
        0 <= upto <= enemies.len(),
        enemies.len() <= usize::MAX,
    ensures
        forall|k: int|
            0 <= k < blast_targets(enemies, center, radius, upto).len() ==> {
                let i = #[trigger] blast_targets(enemies, center, radius, upto)[k];
                i < upto && in_blast(enemies[i as int], center, radius)
            },
        forall|k: int, m: int|
            0 <= k < m < blast_targets(enemies, center, radius, upto).len() ==> blast_targets(
                enemies,
                center,
                radius,
                upto,
            )[k] < blast_targets(enemies, center, radius, upto)[m],
        forall|i: int|
            0 <= i < upto && in_blast(#[trigger] enemies[i], center, radius) ==> blast_targets(
                enemies,
                center,
                radius,
                upto,
            ).contains(i as usize),
    decreases upto,
{
    if upto > 0 {
        lemma_blast_targets(enemies, center, radius, upto - 1);
        let before = blast_targets(enemies, center, radius, upto - 1);
        let all = blast_targets(enemies, center, radius, upto);
        assert forall|i: int| 0 <= i < upto && in_blast(#[trigger] enemies[i], center, radius) implies all.contains(
            i as usize,
        ) by {
            if i == upto - 1 {
                assert(all[all.len() - 1] == i as usize);
            } else {
                let k = choose|k: int| 0 <= k < before.len() && before[k] == i as usize;
                assert(all[k] == i as usize);
            }
        }
    }
}

/// An enemy whose centre lies exactly on the rim of the explosion is among its targets.
pub proof fn lemma_blast_includes_rim(enemies: Seq<EnemyUnit>, center: Vec2D, radius: int, i: int)
    requires
        0 <= i < enemies.len() <= usize::MAX,
        !enemies[i].despawned,
        enemies[i].position.dist_sq(center) == radius * radius,
    ensures
        blast_targets(enemies, center, radius, enemies.len() as int).contains(i as usize),
{
    lemma_blast_targets(enemies, center, radius, enemies.len() as int);
}

/// The enemies that an explosion of `explosion_radius` at `center` reaches:
/// those that are not destroyed and whose centre is within the radius, the rim included.
pub fn rocket_targets(center: Vec2D, explosion_radius: u32, enemies: &Vec<EnemyUnit>) -> (targets: Vec<usize>)
    ensures
        targets@ == blast_targets(enemies@, center, explosion_radius as int, enemies@.len() as int),
{
    let mut targets: Vec<usize> = Vec::new();
    let reach: u128 = explosion_radius as u128;
    proof {
        lemma_square_bound(reach as int, 0xffff_ffff);
    }
    let reach_sq: u128 = reach * reach;
    let mut i: usize = 0;
    while i < enemies.len()
        invariant
            i <= enemies@.len(),
            reach_sq == explosion_radius * explosion_radius,
            targets@ == blast_targets(enemies@, center, explosion_radius as int, i as int),
        decreases enemies@.len() - i,
    {
        if !enemies[i].despawned && enemies[i].position.distance_squared(center) <= reach_sq {
            targets.push(i);
        }
        i = i + 1;
    }
    targets
}

/// Progress and enemies after each of `targets` took `damage`, in order.
pub open spec fn blast(game: GameData, enemies: Seq<EnemyUnit>, boss_active: bool, targets: Seq<usize>, damage: int) -> (
    GameData,
    Seq<EnemyUnit>,
)
    decreases targets.len(),
{
    if targets.len() == 0 {
        (game, enemies)
    } else {
        let before = blast(game, enemies, boss_active, targets.drop_last(), damage);
        hit_enemy(before.0, before.1, boss_active, targets.last() as int, damage)
    }
}

/// The enemy after it took `damage`: it has that much less health, and is
/// destroyed when none is left.
pub open spec fn struck_unit(unit: EnemyUnit, damage: int) -> EnemyUnit {
    EnemyUnit {
        despawned: unit.despawned || unit.enemy.health - damage <= 0,
        enemy: Enemy { health: (unit.enemy.health - damage) as i32, ..unit.enemy },
        ..unit
    }
}

/// Damage dealt to targets that are listed in ascending order reaches each
/// of them once and nobody else.
pub proof fn lemma_blast_hits(
    game: GameData,
    enemies: Seq<EnemyUnit>,
    boss_active: bool,
    targets: Seq<usize>,
    damage: int,
    i: int,
)
    requires
        0 <= i < enemies.len() <= usize::MAX,
        forall|k: int| 0 <= k < targets.len() ==> (#[trigger] targets[k]) < enemies.len(),
        forall|k: int, m: int| 0 <= k < m < targets.len() ==> targets[k] < targets[m],
    ensures
        blast(game, enemies, boss_active, targets, damage).1.len() == enemies.len(),
        blast(game, enemies, boss_active, targets, damage).1[i] == if targets.contains(i as usize) {
            struck_unit(enemies[i], damage)
        } else {
            enemies[i]
        },
    decreases targets.len(),
{
    if targets.len() > 0 {
        let front = targets.drop_last();
        let last = targets.last() as int;
        lemma_blast_hits(game, enemies, boss_active, front, damage, i);
        lemma_blast_hits(game, enemies, boss_active, front, damage, last);
        assert(!front.contains(last as usize)) by {
            if front.contains(last as usize) {
                let k = choose|k: int| 0 <= k < front.len() && front[k] == last as usize;
                assert(targets[k] < targets[targets.len() - 1]);
            }
        }
        if i == last {
            assert(targets[targets.len() - 1] == i as usize);
        } else if targets.contains(i as usize) {
            let k = choose|k: int| 0 <= k < targets.len() && targets[k] == i as usize;
            assert(targets[targets.len() - 1] as int == last);
            assert(k < targets.len() - 1);
            assert(front[k] == i as usize);
        } else if front.contains(i as usize) {
            let k = choose|k: int| 0 <= k < front.len() && front[k] == i as usize;
            assert(targets[k] == i as usize);
        }
    }
}

/// What an explosion does: every enemy that is not destroyed and whose
/// centre is within the radius of the blast, the rim included, loses the full
/// damage and is destroyed when no health is left; every other enemy is as it was.
pub proof fn lemma_blast_effect(
    game: GameData,
    enemies: Seq<EnemyUnit>,
    boss_active: bool,
    center: Vec2D,
    radius: int,
    damage: int,
    i: int,
)
    requires
        0 <= i < enemies.len() <= usize::MAX,
    ensures
        ({
            let targets = blast_targets(enemies, center, radius, enemies.len() as int);
            let after = blast(game, enemies, boss_active, targets, damage).1;
            &&& after.len() == enemies.len()
            &&& after[i] == if in_blast(enemies[i], center, radius) {
                struck_unit(enemies[i], damage)
            } else {
                enemies[i]
            }
        }),
{
    let targets = blast_targets(enemies, center, radius, enemies.len() as int);
    lemma_blast_targets(enemies, center, radius, enemies.len() as int);
    lemma_blast_hits(game, enemies, boss_active, targets, damage, i);
    if targets.contains(i as usize) {
        let k = choose|k: int| 0 <= k < targets.len() && targets[k] == i as usize;
        assert(in_blast(enemies[targets[k] as int], center, radius));
    }
}

/// Number of shards of an explosion: a quarter of its radius in pixels, no fewer than 10 and no more than 28.
pub open spec fn shards(explosion_radius: int) -> int {
    crate::collision::clamp(explosion_radius / 4000, 10, 28)
}

/// Number of shards of an explosion.
pub fn shard_count(explosion_radius: u32) -> (count: u32)
    ensures
        count == shards(explosion_radius as int),
        10 <= count <= 28,
{
    let quarter = explosion_radius / 4000;
    if quarter < 10 {
        10
    } else if quarter > 28 {
        28
    } else {
        quarter
    }
}

/// Every target of an explosion at `center` takes `damage`.
pub(crate) fn explode(
    game: &mut GameData,
    boss_active: bool,
    enemies: &mut Vec<EnemyUnit>,
    center: Vec2D,
    explosion_radius: u32,
    damage: i32,
    coin_drops: &mut Vec<Vec2D>,
    Ghost(entry): Ghost<Seq<EnemyUnit>>,
)
    requires
        damage >= 0,
        enemies_sound(old(enemies)@),
        headroom(*old(game), old(enemies)@),
        evolved(entry, old(enemies)@),
        coins_accounted(entry, old(enemies)@, old(coin_drops)@),
    ensures
        (*final(game), final(enemies)@) == blast(
            *old(game),
            old(enemies)@,
            boss_active,
            blast_targets(old(enemies)@, center, explosion_radius as int, old(enemies)@.len() as int),
            damage as int,
        ),
        enemies_sound(final(enemies)@),
        headroom(*final(game), final(enemies)@),
        evolved(old(enemies)@, final(enemies)@),
        evolved(entry, final(enemies)@),
        coins_accounted(entry, final(enemies)@, final(coin_drops)@),
        paid_from_pending(
            *old(game),
            pending_score(old(enemies)@),
            pending_count(old(enemies)@),
            *final(game),
            pending_score(final(enemies)@),
            pending_count(final(enemies)@),
        ),
{
    let targets = rocket_targets(center, explosion_radius, enemies);
    assert(enemies@.len() <= usize::MAX) by {
        vstd::std_specs::vec::axiom_spec_len(enemies);
    }
    let ghost start_game = *game;
    let ghost start = enemies@;
    proof {
        lemma_blast_targets(start, center, explosion_radius as int, start.len() as int);
    }
    let mut k: usize = 0;
    while k < targets.len()
        invariant
            k <= targets@.len(),
            damage >= 0,
            targets@ == blast_targets(start, center, explosion_radius as int, start.len() as int),
            forall|a: int|
                0 <= a < targets@.len() ==> (#[trigger] targets@[a]) < start.len() && !start[targets@[a] as int].despawned,
            forall|a: int, b: int| 0 <= a < b < targets@.len() ==> targets@[a] < targets@[b],
            enemies@.len() == start.len(),
            forall|a: int| k <= a < targets@.len() ==> enemies@[(#[trigger] targets@[a]) as int] == start[targets@[a] as int],
            (*game, enemies@) == blast(start_game, start, boss_active, targets@.take(k as int), damage as int),
            enemies_sound(enemies@),
            headroom(*game, enemies@),
            evolved(start, enemies@),
            evolved(entry, enemies@),
            coins_accounted(entry, enemies@, coin_drops@),
            paid_from_pending(
                start_game,
                pending_score(start),
                pending_count(start),
                *game,
                pending_score(enemies@),
                pending_count(enemies@),
            ),
        decreases targets@.len() - k,
    {
        let i = targets[k];
        proof {
            assert(targets@.take(k as int + 1).drop_last() =~= targets@.take(k as int));
            assert(targets@.take(k as int + 1).last() == i);
            assert(enemies@[targets@[k as int] as int] == start[targets@[k as int] as int]);
        }
        strike_enemy(game, boss_active, enemies, i, damage, coin_drops, Ghost(entry));
        k = k + 1;
    }
    proof {
        assert(targets@.take(k as int) =~= targets@);
    }
}

/// The state that the collision handlers work on.
pub struct Battle {
    pub game: GameData,
    pub enemies: Seq<EnemyUnit>,
    pub projectiles: Seq<ProjectileView>,
    pub effects: Seq<Effect>,
}

impl ProjectileView {
    /// The part that decides whether a hit counts.
    pub open spec fn piercing(self) -> Piercing {
        Piercing { pierce: self.pierce, hits: self.hit_list, gone: self.despawned }
    }

    /// The projectile with `target` added to its hit list, where it keeps one.
    pub open spec fn noted(self, target: u64) -> ProjectileView {
        ProjectileView {
            hit_list: match self.hit_list {
                Some(hits) => Some(hits.push(target)),
                None => None,
            },
            ..self
        }
    }

    /// The projectile with one hit of pierce used up; it is gone when none is left.
    pub open spec fn worn(self) -> ProjectileView {
        ProjectileView {
            pierce: pierce_after_hit(self.pierce).0,
            despawned: pierce_after_hit(self.pierce).1,
            ..self
        }
    }

    /// The projectile used up.
    pub open spec fn spent(self) -> ProjectileView {
        ProjectileView { despawned: true, ..self }
    }
}

/// A hit that deals damage leaves the projectile as `Piercing::after` says:
/// noted in the hit list and one hit of pierce poorer.
pub proof fn lemma_hit_follows_piercing(projectile: ProjectileView, target: u64)
    requires
        projectile.piercing().strikes(target),
    ensures
        projectile.noted(target).worn().piercing() == projectile.piercing().after(target),
{
}

/// Where the sparks of a hit appear: on the enemy for lasers and beam waves, else on the projectile.
pub open spec fn spark_position(weapon_type: WeaponType, enemy_position: Vec2D, projectile_position: Vec2D) -> Vec2D {
    if weapon_type == WeaponType::Laser || weapon_type == WeaponType::Beam {
        enemy_position
    } else {
        projectile_position
    }
}

/// The state after projectile `j` met enemy `i`.
///
/// A plain bullet deals its damage and is used up. A weapon projectile that
/// has struck the enemy before does nothing. Otherwise it notes the enemy; a
/// rocket then explodes, which damages every enemy in reach and uses the
/// rocket up; any other projectile damages the enemy and loses a hit of pierce.
pub open spec fn projectile_meets_enemy(battle: Battle, boss_active: bool, i: int, j: int) -> Battle {
    let projectile = battle.projectiles[j];
    let unit = battle.enemies[i];
    match projectile.bullet {
        Some(bullet) => {
            let (game, enemies) = hit_enemy(battle.game, battle.enemies, boss_active, i, bullet.damage as int);
            Battle {
                game,
                enemies,
                projectiles: battle.projectiles.update(j, projectile.spent()),
                effects: battle.effects.push(Effect::HitSparks { position: projectile.position }),
            }
        },
        None => match projectile.weapon_bullet {
            None => battle,
            Some(weapon_bullet) => if !projectile.piercing().strikes(unit.entity) {
                battle
            } else if weapon_bullet.weapon_type == WeaponType::Rocket {
                match projectile.rocket {
                    None => Battle {
                        projectiles: battle.projectiles.update(j, projectile.noted(unit.entity)),
                        ..battle
                    },
                    Some(rocket) => {
                        let targets = blast_targets(
                            battle.enemies,
                            projectile.position,
                            rocket.explosion_radius as int,
                            battle.enemies.len() as int,
                        );
                        let (game, enemies) = blast(
                            battle.game,
                            battle.enemies,
                            boss_active,
                            targets,
                            weapon_bullet.damage as int,
                        );
                        Battle {
                            game,
                            enemies,
                            projectiles: battle.projectiles.update(j, projectile.noted(unit.entity).spent()),
                            effects: battle.effects.push(
                                Effect::RocketExplosion {
                                    position: projectile.position,
                                    shard_count: shards(rocket.explosion_radius as int) as u32,
                                    base_speed: rocket.speed,
                                },
                            ),
                        }
                    },
                }
            } else {
                let (game, enemies) = hit_enemy(
                    battle.game,
                    battle.enemies,
                    boss_active,
                    i,
                    weapon_bullet.damage as int,
                );
                Battle {
                    game,
                    enemies,
                    projectiles: battle.projectiles.update(j, projectile.noted(unit.entity).worn()),
                    effects: battle.effects.push(
                        Effect::HitSparks {
                            position: spark_position(weapon_bullet.weapon_type, unit.position, projectile.position),
                        },
                    ),
                }
            },
        },
    }
}

/// How projectiles are used up. A plain bullet is gone after any hit, and so
/// is a rocket that explodes and a weapon's projectile without pierce; a
/// projectile with infinite pierce stays. A projectile that has struck an
/// enemy before, by its hit list, leaves everything as it is.
pub proof fn lemma_projectile_consumption(battle: Battle, boss_active: bool, i: int, j: int)
    requires
        0 <= i < battle.enemies.len(),
        0 <= j < battle.projectiles.len(),
        !battle.projectiles[j].despawned,
    ensures
        ({
            let projectile = battle.projectiles[j];
            let after = projectile_meets_enemy(battle, boss_active, i, j);
            &&& projectile.bullet is Some ==> after.projectiles[j].despawned
            &&& projectile.bullet is None && (projectile.hit_list matches Some(hits) && hits.contains(
                battle.enemies[i].entity,
            )) ==> after == battle
            &&& projectile.bullet is None && projectile.hit_list is None && (projectile.weapon_bullet matches Some(
                w,
            ) && (w.weapon_type != WeaponType::Rocket && projectile.pierce is None || w.weapon_type
                == WeaponType::Rocket && projectile.rocket is Some)) ==> after.projectiles[j].despawned
            &&& projectile.bullet is None && projectile.hit_list is None && (projectile.weapon_bullet matches Some(
                w,
            ) && w.weapon_type != WeaponType::Rocket) && projectile.pierce == Some(
                Pierce { remaining: crate::projectiles::INFINITE_PIERCE },
            ) ==> !after.projectiles[j].despawned
        }),
{
}

/// The last hit of a piercing projectile. A weapon's projectile that is no
/// rocket, has one hit of pierce left and has not struck the enemy deals its
/// damage, is left with no pierce and is used up; with more than one hit left
/// it deals its damage, loses one and stays.
pub proof fn lemma_pierce_runs_out(battle: Battle, boss_active: bool, i: int, j: int, remaining: u32)
    requires
        0 <= i < battle.enemies.len(),
        0 <= j < battle.projectiles.len(),
        1 <= remaining < crate::projectiles::INFINITE_PIERCE,
        battle.projectiles[j].bullet is None,
        battle.projectiles[j].weapon_bullet matches Some(w) && w.weapon_type != WeaponType::Rocket,
        battle.projectiles[j].pierce == Some(Pierce { remaining }),
        battle.projectiles[j].piercing().strikes(battle.enemies[i].entity),
    ensures
        ({
            let after = projectile_meets_enemy(battle, boss_active, i, j);
            let damage = battle.projectiles[j].weapon_bullet->0.damage;
            &&& after.enemies[i].enemy.health == (battle.enemies[i].enemy.health - damage) as i32
            &&& after.projectiles[j].pierce == Some(Pierce { remaining: (remaining - 1) as u32 })
            &&& after.projectiles[j].despawned == (remaining == 1)
            &&& battle.projectiles[j].hit_list matches Some(hits) ==> after.projectiles[j].hit_list == Some(
                hits.push(battle.enemies[i].entity),
            )
        }),
{
}

/// The state after one collision event. The event counts when one side is on
/// the enemy layer and is a regular enemy that is not destroyed, and the other
/// side is on the player-bullet layer and is a projectile that is not used up.
pub open spec fn enemy_event_step(battle: Battle, boss_active: bool, event: CollisionEvent) -> Battle {
    if event.layer_a != CollisionLayer::Enemy && event.layer_b != CollisionLayer::Enemy {
        battle
    } else {
        let a_is_enemy = event.layer_a == CollisionLayer::Enemy;
        let enemy_entity = if a_is_enemy {
            event.entity_a
        } else {
            event.entity_b
        };
        let other_entity = if a_is_enemy {
            event.entity_b
        } else {
            event.entity_a
        };
        let other_layer = if a_is_enemy {
            event.layer_b
        } else {
            event.layer_a
        };
        match find_enemy(battle.enemies, enemy_entity, 0) {
            None => battle,
            Some(i) => if other_layer != CollisionLayer::PlayerBullet {
                battle
            } else {
                match find_projectile(battle.projectiles, other_entity, 0) {
                    None => battle,
                    Some(j) => projectile_meets_enemy(battle, boss_active, i, j),
                }
            },
        }
    }
}

/// The state after the first `count` of `events`, in order.
pub open spec fn enemy_events(battle: Battle, boss_active: bool, events: Seq<CollisionEvent>, count: int) -> Battle
    decreases count,
{
    if count <= 0 {
        battle
    } else {
        enemy_event_step(enemy_events(battle, boss_active, events, count - 1), boss_active, events[count - 1])
    }
}

pub(crate) fn use_up(projectiles: &mut Vec<Projectile>, j: usize)
    requires
        j < old(projectiles)@.len(),
    ensures
        final(projectiles)@.len() == old(projectiles)@.len(),
        views(final(projectiles)@) == views(old(projectiles)@).update(j as int, views(old(projectiles)@)[j as int].spent()),
{
    projectiles[j].despawned = true;
    assert(views(projectiles@) =~= views(old(projectiles)@).update(
        j as int,
        views(old(projectiles)@)[j as int].spent(),
    ));
}

pub(crate) fn wear(projectiles: &mut Vec<Projectile>, j: usize)
    requires
        j < old(projectiles)@.len(),
    ensures
        final(projectiles)@.len() == old(projectiles)@.len(),
        views(final(projectiles)@) == views(old(projectiles)@).update(j as int, views(old(projectiles)@)[j as int].worn()),
{
    let gone = consume_pierce(&mut projectiles[j].pierce);
    projectiles[j].despawned = gone;
    assert(views(projectiles@) =~= views(old(projectiles)@).update(
        j as int,
        views(old(projectiles)@)[j as int].worn(),
    ));
}

/// Notes `target` in the hit list of projectile `j`. Returns whether the hit counts.
pub(crate) fn note(projectiles: &mut Vec<Projectile>, j: usize, target: u64) -> (counts: bool)
    requires
        j < old(projectiles)@.len(),
        !old(projectiles)@[j as int].despawned,
    ensures
        final(projectiles)@.len() == old(projectiles)@.len(),
        counts == views(old(projectiles)@)[j as int].piercing().strikes(target),
        views(final(projectiles)@) == if counts {
            views(old(projectiles)@).update(j as int, views(old(projectiles)@)[j as int].noted(target))
        } else {
            views(old(projectiles)@)
        },
{
    let counts = match &mut projectiles[j].hit_list {
        Some(hits) => hits.record(target),
        None => true,
    };
    proof {
        if counts {
            assert(views(projectiles@) =~= views(old(projectiles)@).update(
                j as int,
                views(old(projectiles)@)[j as int].noted(target),
            ));
        } else {
            assert(views(projectiles@) =~= views(old(projectiles)@));
        }
    }
    counts
}

/// What a frame's collisions of regular enemies brought about.
#[derive(Debug)]
pub struct BattleReport {
    /// The effects to show, in the order of the events.
    pub effects: Vec<Effect>,
    /// Where destroyed enemies left a coin.
    pub coin_drops: Vec<Vec2D>,
}

fn enemy_event(
    event: &CollisionEvent,
    game: &mut GameData,
    boss_active: bool,
    enemies: &mut Vec<EnemyUnit>,
    projectiles: &mut Vec<Projectile>,
    effects: &mut Vec<Effect>,
    coin_drops: &mut Vec<Vec2D>,
    Ghost(entry): Ghost<Seq<EnemyUnit>>,
)
    requires
        enemies_sound(old(enemies)@),
        projectiles_sound(views(old(projectiles)@)),
        headroom(*old(game), old(enemies)@),
        evolved(entry, old(enemies)@),
        coins_accounted(entry, old(enemies)@, old(coin_drops)@),
    ensures
        (Battle {
            game: *final(game),
            enemies: final(enemies)@,
            projectiles: views(final(projectiles)@),
            effects: final(effects)@,
        }) == enemy_event_step(
            Battle {
                game: *old(game),
                enemies: old(enemies)@,
                projectiles: views(old(projectiles)@),
                effects: old(effects)@,
            },
            boss_active,
            *event,
        ),
        enemies_sound(final(enemies)@),
        projectiles_sound(views(final(projectiles)@)),
        headroom(*final(game), final(enemies)@),
        evolved(entry, final(enemies)@),
        coins_accounted(entry, final(enemies)@, final(coin_drops)@),
        paid_from_pending(
            *old(game),
            pending_score(old(enemies)@),
            pending_count(old(enemies)@),
            *final(game),
            pending_score(final(enemies)@),
            pending_count(final(enemies)@),
        ),
{
    if event.layer_a != CollisionLayer::Enemy && event.layer_b != CollisionLayer::Enemy {
        return ;
    }
    let a_is_enemy = event.layer_a == CollisionLayer::Enemy;
    let enemy_entity = if a_is_enemy {
        event.entity_a
    } else {
        event.entity_b
    };
    let other_entity = if a_is_enemy {
        event.entity_b
    } else {
        event.entity_a
    };
    let other_layer = if a_is_enemy {
        event.layer_b
    } else {
        event.layer_a
    };
    let i = match enemy_index(enemies, enemy_entity) {
        Some(i) => i,
        None => {
            return ;
        },
    };
    if other_layer != CollisionLayer::PlayerBullet {
        return ;
    }
    let j = match projectile_index(projectiles, other_entity) {
        Some(j) => j,
        None => {
            return ;
        },
    };
    proof {
        lemma_find_enemy(enemies@, enemy_entity, 0);
        lemma_find_projectile(views(projectiles@), other_entity, 0);
    }
    let position = projectiles[j].position;
    let enemy_position = enemies[i].position;
    let ghost start = Battle {
        game: *game,
        enemies: enemies@,
        projectiles: views(projectiles@),
        effects: effects@,
    };
    let ghost before = views(projectiles@);
    assert(before[j as int] == projectiles@[j as int]@);
    assert(enemy_event_step(start, boss_active, *event) == projectile_meets_enemy(
        start,
        boss_active,
        i as int,
        j as int,
    ));
    match projectiles[j].bullet {
        Some(bullet) => {
            effects.push(Effect::HitSparks { position });
            strike_enemy(game, boss_active, enemies, i, bullet.damage, coin_drops, Ghost(entry));
            use_up(projectiles, j);
            assert(views(projectiles@)[j as int] == before[j as int].spent());
        },
        None => {
            let weapon_bullet = match projectiles[j].weapon_bullet {
                Some(weapon_bullet) => weapon_bullet,
                None => {
                    return ;
                },
            };
            if !note(projectiles, j, enemy_entity) {
                return ;
            }
            let ghost noted = views(projectiles@);
            assert(noted[j as int] == before[j as int].noted(enemy_entity));
            assert(noted[j as int] == projectiles@[j as int]@);
            if weapon_bullet.weapon_type == WeaponType::Rocket {
                let rocket = match projectiles[j].rocket {
                    Some(rocket) => rocket,
                    None => {
                        return ;
                    },
                };
                explode(
                    game,
                    boss_active,
                    enemies,
                    position,
                    rocket.explosion_radius,
                    weapon_bullet.damage,
                    coin_drops,
                    Ghost(entry),
                );
                effects.push(
                    Effect::RocketExplosion {
                        position,
                        shard_count: shard_count(rocket.explosion_radius),
                        base_speed: rocket.speed,
                    },
                );
                use_up(projectiles, j);
                assert(views(projectiles@) =~= before.update(
                    j as int,
                    before[j as int].noted(enemy_entity).spent(),
                ));
            } else {
                let spark = match weapon_bullet.weapon_type {
                    WeaponType::Laser | WeaponType::Beam => enemy_position,
                    _ => position,
                };
                effects.push(Effect::HitSparks { position: spark });
                strike_enemy(game, boss_active, enemies, i, weapon_bullet.damage, coin_drops, Ghost(entry));
                wear(projectiles, j);
                assert(views(projectiles@) =~= before.update(
                    j as int,
                    before[j as int].noted(enemy_entity).worn(),
                ));
            }
        },
    }
    proof {
        assert forall|m: int| 0 <= m < views(projectiles@).len() implies {
            &&& (#[trigger] views(projectiles@)[m]).bullet == before[m].bullet
            &&& views(projectiles@)[m].weapon_bullet == before[m].weapon_bullet
        } by {}
    }
}

/// Resolves a frame's collision events for the regular enemies, in order.
///
/// An event counts when it joins a regular enemy that is not destroyed with a
/// projectile of the player that is not used up; every other event is passed
/// over. An enemy is destroyed when its health reaches zero, and a projectile
/// is used up as its kind and its pierce say; both then take part in no later
/// event. The report lists the effects to show and the coins that were left.
pub fn enemy_collision_handler(
    events: &Vec<CollisionEvent>,
    game: &mut GameData,
    boss_active: bool,
    enemies: &mut Vec<EnemyUnit>,
    projectiles: &mut Vec<Projectile>,
) -> (report: BattleReport)
    requires
        enemies_sound(old(enemies)@),
        projectiles_sound(views(old(projectiles)@)),
        headroom(*old(game), old(enemies)@),
    ensures
        (Battle {
            game: *final(game),
            enemies: final(enemies)@,
            projectiles: views(final(projectiles)@),
            effects: report.effects@,
        }) == enemy_events(
            Battle {
                game: *old(game),
                enemies: old(enemies)@,
                projectiles: views(old(projectiles)@),
                effects: Seq::empty(),
            },
            boss_active,
            events@,
            events@.len() as int,
        ),
        enemies_sound(final(enemies)@),
        projectiles_sound(views(final(projectiles)@)),
        headroom(*final(game), final(enemies)@),
        evolved(old(enemies)@, final(enemies)@),
        coins_accounted(old(enemies)@, final(enemies)@, report.coin_drops@),
        paid_from_pending(
            *old(game),
            pending_score(old(enemies)@),
            pending_count(old(enemies)@),
            *final(game),
            pending_score(final(enemies)@),
            pending_count(final(enemies)@),
        ),
{
    let mut effects: Vec<Effect> = Vec::new();
    let mut coin_drops: Vec<Vec2D> = Vec::new();
    let ghost entry = enemies@;
    let ghost start = Battle {
        game: *game,
        enemies: enemies@,
        projectiles: views(projectiles@),
        effects: Seq::empty(),
    };
    let mut k: usize = 0;
    while k < events.len()
        invariant
            k <= events@.len(),
            (Battle { game: *game, enemies: enemies@, projectiles: views(projectiles@), effects: effects@ })
                == enemy_events(start, boss_active, events@, k as int),
            enemies_sound(enemies@),
            projectiles_sound(views(projectiles@)),
            headroom(*game, enemies@),
            evolved(entry, enemies@),
            coins_accounted(entry, enemies@, coin_drops@),
            paid_from_pending(
                start.game,
                pending_score(entry),
                pending_count(entry),
                *game,
                pending_score(enemies@),
                pending_count(enemies@),
            ),
        decreases events@.len() - k,
    {
        enemy_event(&events[k], game, boss_active, enemies, projectiles, &mut effects, &mut coin_drops, Ghost(entry));
        k = k + 1;
    }
    BattleReport { effects, coin_drops }
}

} // verus!
