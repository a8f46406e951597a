//! Combat resolution for bosses: what the player's projectiles do to a boss.

use vstd::prelude::*;
use crate::boss::{phase_for, Boss, BossState};
use crate::collision::{CollisionEvent, CollisionLayer};
use crate::combat::{
    find_projectile, lemma_find_projectile, note, projectile_index, projectiles_sound, shard_count, shards,
    use_up, views, wear, Effect, Projectile, ProjectileView,
};
use crate::geometry::Vec2D;
use crate::states::GameData;
use crate::weapons::WeaponType;

verus! {

/// A boss of the frame's snapshot.
#[derive(Clone, Copy, PartialEq, Eq, Structural, Debug)]
pub struct BossUnit {
    pub entity: u64,
    pub position: Vec2D,
    /// Set once the boss is defeated. A defeated boss takes part in nothing.
    pub despawned: bool,
    pub boss: Boss,
}

/// Index of the first boss at or after `from` that has the handle `entity` and is not defeated.
pub open spec fn find_boss(bosses: Seq<BossUnit>, entity: u64, from: int) -> Option<int>
    decreases bosses.len() - from,
{
    if from < 0 || from >= bosses.len() {
        None
    } else if bosses[from].entity == entity && !bosses[from].despawned {
        Some(from)
    } else {
        find_boss(bosses, entity, from + 1)
    }
}

/// What `find_boss` finds is in range, has the handle and is not defeated.
pub proof fn lemma_find_boss(bosses: Seq<BossUnit>, entity: u64, from: int)
    requires
        0 <= from,
    ensures
        find_boss(bosses, entity, from) matches Some(i) ==> from <= i < bosses.len() && bosses[i].entity == entity
            && !bosses[i].despawned,
        find_boss(bosses, entity, from) is None ==> forall|i: int|
            from <= i < bosses.len() ==> !((#[trigger] bosses[i]).entity == entity && !bosses[i].despawned),
    decreases bosses.len() - from,
{
    if from < bosses.len() && !(bosses[from].entity == entity && !bosses[from].despawned) {
        lemma_find_boss(bosses, entity, from + 1);
    }
}

/// Looks up a boss by its handle.
pub fn boss_index(bosses: &Vec<BossUnit>, entity: u64) -> (found: Option<usize>)
    ensures
        match found {
            Some(i) => find_boss(bosses@, entity, 0) == Some(i as int) && i < bosses@.len(),
            None => find_boss(bosses@, entity, 0) is None,
        },
{
    let mut i: usize = 0;
    while i < bosses.len()
        invariant
            i <= bosses@.len(),
            find_boss(bosses@, entity, 0) == find_boss(bosses@, entity, i as int),
        decreases bosses@.len() - i,
    {
        if bosses[i].entity == entity && !bosses[i].despawned {
            return Some(i);
        }
        i = i + 1;
    }
    None
}

/// Progress, fight and bosses after boss `i` took `damage`: the boss is in
/// the phase of the health it has left, and the fight shows that health; at
/// zero health or below the boss is defeated, its value awarded as score and
/// experience, and the fight is over.
pub open spec fn hit_boss(game: GameData, state: BossState, bosses: Seq<BossUnit>, i: int, damage: int) -> (
    GameData,
    BossState,
    Seq<BossUnit>,
) {
    let unit = bosses[i];
    let health = unit.boss.health - damage;
    let struck = Boss {
        health: health as i32,
        phase: phase_for(health, unit.boss.max_health as int) as u32,
        ..unit.boss
    };
    if health <= 0 {
        (
            game.with_score(unit.boss.score_value as int).with_experience(unit.boss.score_value as int),
            BossState { active: false, current_health: 0, ..state },
            bosses.update(i, BossUnit { despawned: true, boss: struck, ..unit }),
        )
    } else {
        (game, BossState { current_health: health as i32, ..state }, bosses.update(i, BossUnit { boss: struck, ..unit }))
    }
}

/// The value of the bosses that are not defeated.
pub open spec fn pending_boss_score(bosses: Seq<BossUnit>) -> int
    decreases bosses.len(),
{
    if bosses.len() == 0 {
        0
    } else {
        pending_boss_score(bosses.drop_last()) + if bosses.last().despawned {
            0
        } else {
            bosses.last().boss.score_value as int
        }
    }
}

/// The number of the bosses that are not defeated.
pub open spec fn pending_boss_count(bosses: Seq<BossUnit>) -> int
    decreases bosses.len(),
{
    if bosses.len() == 0 {
        0
    } else {
        pending_boss_count(bosses.drop_last()) + if bosses.last().despawned {
            0int
        } else {
            1int
        }
    }
}

/// The counters can take the value of every boss that is left.
pub open spec fn boss_headroom(game: GameData, bosses: Seq<BossUnit>) -> bool {
    &&& game.score + pending_boss_score(bosses) <= u32::MAX
    &&& game.experience + pending_boss_score(bosses) <= u32::MAX
    &&& game.player_level + pending_boss_count(bosses) <= u32::MAX
}

/// Every boss that is not defeated has health left.
pub open spec fn bosses_sound(bosses: Seq<BossUnit>) -> bool {
    forall|i: int| 0 <= i < bosses.len() && !(#[trigger] bosses[i]).despawned ==> bosses[i].boss.health > 0
}

pub(crate) proof fn lemma_pending_boss_nonnegative(bosses: Seq<BossUnit>)
    ensures
        pending_boss_score(bosses) >= 0,
        pending_boss_count(bosses) >= 0,
    decreases bosses.len(),
{
    if bosses.len() > 0 {
        lemma_pending_boss_nonnegative(bosses.drop_last());
    }
}

pub(crate) proof fn lemma_pending_boss_update(bosses: Seq<BossUnit>, i: int, unit: BossUnit)
    requires
        0 <= i < bosses.len(),
        !bosses[i].despawned,
        unit.boss.score_value == bosses[i].boss.score_value,
    ensures
        pending_boss_score(bosses.update(i, unit)) == pending_boss_score(bosses) - if unit.despawned {
            bosses[i].boss.score_value as int
        } else {
            0
        },
        pending_boss_count(bosses.update(i, unit)) == pending_boss_count(bosses) - if unit.despawned {
            1int
        } else {
            0int
        },
    decreases bosses.len(),
{
    let updated = bosses.update(i, unit);
    if i == bosses.len() - 1 {
        assert(updated.drop_last() =~= bosses.drop_last());
    } else {
        lemma_pending_boss_update(bosses.drop_last(), i, unit);
        assert(updated.drop_last() =~= bosses.drop_last().update(i, unit));
    }
}

/// Boss `i` takes `damage`.
pub(crate) fn strike_boss(
    game: &mut GameData,
    boss_state: &mut BossState,
    bosses: &mut Vec<BossUnit>,
    i: usize,
    damage: i32,
)
    requires
        i < old(bosses)@.len(),
        !old(bosses)@[i as int].despawned,
        damage >= 0,
        bosses_sound(old(bosses)@),
        boss_headroom(*old(game), old(bosses)@),
    ensures
        (*final(game), *final(boss_state), final(bosses)@) == hit_boss(
            *old(game),
            *old(boss_state),
            old(bosses)@,
            i as int,
            damage as int,
        ),
        bosses_sound(final(bosses)@),
        boss_headroom(*final(game), final(bosses)@),
        final(bosses)@.len() == old(bosses)@.len(),
        forall|k: int| 0 <= k < old(bosses)@.len() && k != i ==> (#[trigger] final(bosses)@[k]) == old(bosses)@[k],
        crate::combat::paid_from_pending(
            *old(game),
            pending_boss_score(old(bosses)@),
            pending_boss_count(old(bosses)@),
            *final(game),
            pending_boss_score(final(bosses)@),
            pending_boss_count(final(bosses)@),
        ),
{
    let mut unit = bosses[i];
    let ghost before = bosses@;
    proof {
        lemma_pending_boss_nonnegative(bosses@);
        lemma_pending_boss_update(bosses@, i as int, BossUnit { despawned: true, ..unit });
        lemma_pending_boss_nonnegative(bosses@.update(i as int, BossUnit { despawned: true, ..unit }));
        let value = unit.boss.score_value as int;
        if unit.boss.health - damage <= 0 {
            crate::states::lemma_experience_bounds(game.with_score(value), value);
        }
    }
    unit.boss.health -= damage;
    unit.boss.update_phase();
    boss_state.current_health = unit.boss.health;
    if unit.boss.health <= 0 {
        unit.despawned = true;
        game.add_score(unit.boss.score_value);
        boss_state.active = false;
        boss_state.current_health = 0;
    }
    bosses.set(i, unit);
    proof {
        lemma_pending_boss_update(before, i as int, unit);
    }
}

/// The state that the bosses' collision handler works on.
pub struct BossBattle {
    pub game: GameData,
    pub boss_state: BossState,
    pub bosses: Seq<BossUnit>,
    pub projectiles: Seq<ProjectileView>,
    pub effects: Seq<Effect>,
}

/// The damage that projectile `j` deals to the boss with the handle `boss_entity`,
/// if it deals any: that of a plain bullet always, that of a weapon's
/// projectile unless it has struck the boss before.
pub open spec fn boss_damage(projectile: ProjectileView, boss_entity: u64) -> Option<int> {
    match projectile.bullet {
        Some(bullet) => Some(bullet.damage as int),
        None => match projectile.weapon_bullet {
            Some(weapon_bullet) => if projectile.piercing().strikes(boss_entity) {
                Some(weapon_bullet.damage as int)
            } else {
                None
            },
            None => None,
        },
    }
}

/// The projectile after it struck the boss: a plain bullet and a rocket are
/// used up; any other projectile notes the boss and loses a hit of pierce.
pub open spec fn after_boss_hit(projectile: ProjectileView, boss_entity: u64) -> ProjectileView {
    match projectile.bullet {
        Some(_) => projectile.spent(),
        None => match projectile.weapon_bullet {
            Some(weapon_bullet) => if weapon_bullet.weapon_type == WeaponType::Rocket {
                projectile.noted(boss_entity).spent()
            } else {
                projectile.noted(boss_entity).worn()
            },
            None => projectile,
        },
    }
}

/// The effects after the projectile struck the boss: a rocket bursts into shards.
pub open spec fn boss_hit_effects(effects: Seq<Effect>, projectile: ProjectileView) -> Seq<Effect> {
    match (projectile.bullet, projectile.weapon_bullet, projectile.rocket) {
        (None, Some(weapon_bullet), Some(rocket)) => if weapon_bullet.weapon_type == WeaponType::Rocket {
            effects.push(
                Effect::RocketExplosion {
                    position: projectile.position,
                    shard_count: shards(rocket.explosion_radius as int) as u32,
                    base_speed: rocket.speed,
                },
            )
        } else {
            effects
        },
        _ => effects,
    }
}

/// A piercing projectile and a boss. A projectile that has struck the boss
/// before, by its hit list, deals no damage. Otherwise a weapon's projectile
/// that is no rocket deals its damage, notes the boss and loses a hit of its
/// pierce: it stays while a hit is left, and is used up with its last.
pub proof fn lemma_boss_pierce(projectile: ProjectileView, boss_entity: u64, remaining: u32)
    requires
        1 <= remaining < crate::projectiles::INFINITE_PIERCE,
        !projectile.despawned,
        projectile.bullet is None,
        projectile.weapon_bullet matches Some(w) && w.weapon_type != WeaponType::Rocket,
        projectile.pierce == Some(crate::projectiles::Pierce { remaining }),
        projectile.hit_list is Some,
    ensures
        projectile.hit_list->0.contains(boss_entity) ==> boss_damage(projectile, boss_entity) is None,
        !projectile.hit_list->0.contains(boss_entity) ==> {
            let after = after_boss_hit(projectile, boss_entity);
            &&& boss_damage(projectile, boss_entity) == Some(projectile.weapon_bullet->0.damage as int)
            &&& after.pierce == Some(crate::projectiles::Pierce { remaining: (remaining - 1) as u32 })
            &&& after.despawned == (remaining == 1)
            &&& after.hit_list == Some(projectile.hit_list->0.push(boss_entity))
        },
{
}

/// The state after one collision event. The event counts when one side is on
/// the enemy layer and is a boss that is not defeated, and the other side is
/// on the player-bullet layer and is a projectile that is not used up.
pub open spec fn boss_event_step(battle: BossBattle, event: CollisionEvent) -> BossBattle {
    let a_is_boss = event.layer_a == CollisionLayer::Enemy && find_boss(battle.bosses, event.entity_a, 0) is Some;
    let b_is_boss = event.layer_b == CollisionLayer::Enemy && find_boss(battle.bosses, event.entity_b, 0) is Some;
    if !a_is_boss && !b_is_boss {
        battle
    } else {
        let boss_entity = if a_is_boss {
            event.entity_a
        } else {
            event.entity_b
        };
        let other_entity = if a_is_boss {
            event.entity_b
        } else {
            event.entity_a
        };
        let other_layer = if a_is_boss {
            event.layer_b
        } else {
            event.layer_a
        };
        let i = find_boss(battle.bosses, boss_entity, 0)->0;
        if other_layer != CollisionLayer::PlayerBullet {
            battle
        } else {
            match find_projectile(battle.projectiles, other_entity, 0) {
                None => battle,
                Some(j) => match boss_damage(battle.projectiles[j], boss_entity) {
                    None => battle,
                    Some(damage) => {
                        let (game, boss_state, bosses) = hit_boss(
                            battle.game,
                            battle.boss_state,
                            battle.bosses,
                            i,
                            damage,
                        );
                        BossBattle {
                            game,
                            boss_state,
                            bosses,
                            projectiles: battle.projectiles.update(
                                j,
                                after_boss_hit(battle.projectiles[j], boss_entity),
                            ),
                            effects: boss_hit_effects(battle.effects, battle.projectiles[j]),
                        }
                    },
                },
            }
        }
    }
}

/// The state after the first `count` of `events`, in order.
pub open spec fn boss_events(battle: BossBattle, events: Seq<CollisionEvent>, count: int) -> BossBattle
    decreases count,
{
    if count <= 0 {
        battle
    } else {
        boss_event_step(boss_events(battle, events, count - 1), events[count - 1])
    }
}

fn boss_event(
    event: &CollisionEvent,
    game: &mut GameData,
    boss_state: &mut BossState,
    bosses: &mut Vec<BossUnit>,
    projectiles: &mut Vec<Projectile>,
    effects: &mut Vec<Effect>,
)
    requires
        bosses_sound(old(bosses)@),
        projectiles_sound(views(old(projectiles)@)),
        boss_headroom(*old(game), old(bosses)@),
    ensures
        (BossBattle {
            game: *final(game),
            boss_state: *final(boss_state),
            bosses: final(bosses)@,
            projectiles: views(final(projectiles)@),
            effects: final(effects)@,
        }) == boss_event_step(
            BossBattle {
                game: *old(game),
                boss_state: *old(boss_state),
                bosses: old(bosses)@,
                projectiles: views(old(projectiles)@),
                effects: old(effects)@,
            },
            *event,
        ),
        bosses_sound(final(bosses)@),
        projectiles_sound(views(final(projectiles)@)),
        boss_headroom(*final(game), final(bosses)@),
{
    let found_a = if event.layer_a == CollisionLayer::Enemy {
        boss_index(bosses, event.entity_a)
    } else {
        None
    };
    let found_b = if event.layer_b == CollisionLayer::Enemy {
        boss_index(bosses, event.entity_b)
    } else {
        None
    };
    let (i, boss_entity, other_entity, other_layer) = match (found_a, found_b) {
        (Some(i), _) => (i, event.entity_a, event.entity_b, event.layer_b),
        (None, Some(i)) => (i, event.entity_b, event.entity_a, event.layer_a),
        (None, None) => {
            return ;
        },
    };
    if other_layer != CollisionLayer::PlayerBullet {
        return ;
    }
    let j = match projectile_index(projectiles, other_entity) {
        Some(j) => j,
        None => {
            return ;
        },
    };
    proof {
        lemma_find_boss(bosses@, boss_entity, 0);
        lemma_find_projectile(views(projectiles@), other_entity, 0);
    }
    let position = projectiles[j].position;
    let ghost before = views(projectiles@);
    assert(before[j as int] == projectiles@[j as int]@);
    let damage = match projectiles[j].bullet {
        Some(bullet) => {
            use_up(projectiles, j);
            bullet.damage
        },
        None => {
            let weapon_bullet = match projectiles[j].weapon_bullet {
                Some(weapon_bullet) => weapon_bullet,
                None => {
                    return ;
                },
            };
            if !note(projectiles, j, boss_entity) {
                return ;
            }
            let ghost noted = views(projectiles@);
            assert(noted[j as int] == before[j as int].noted(boss_entity));
            assert(noted[j as int] == projectiles@[j as int]@);
            if weapon_bullet.weapon_type == WeaponType::Rocket {
                match projectiles[j].rocket {
                    Some(rocket) => {
                        effects.push(
                            Effect::RocketExplosion {
                                position,
                                shard_count: shard_count(rocket.explosion_radius),
                                base_speed: rocket.speed,
                            },
                        );
                    },
                    None => {},
                }
                use_up(projectiles, j);
                assert(views(projectiles@) =~= before.update(
                    j as int,
                    before[j as int].noted(boss_entity).spent(),
                ));
            } else {
                wear(projectiles, j);
                assert(views(projectiles@) =~= before.update(
                    j as int,
                    before[j as int].noted(boss_entity).worn(),
                ));
            }
            weapon_bullet.damage
        },
    };
    proof {
        assert forall|m: int| 0 <= m < views(projectiles@).len() implies {
            &&& (#[trigger] views(projectiles@)[m]).bullet == before[m].bullet
            &&& views(projectiles@)[m].weapon_bullet == before[m].weapon_bullet
        } by {}
    }
    strike_boss(game, boss_state, bosses, i, damage);
}

/// Resolves a frame's collision events for the bosses, in order. Returns the effects to show.
///
/// An event counts when it joins a boss that is not defeated with a projectile
/// of the player that is not used up. A defeated boss ends the fight and takes
/// part in no later event.
pub fn boss_collision_handler(
    events: &Vec<CollisionEvent>,
    game: &mut GameData,
    boss_state: &mut BossState,
    bosses: &mut Vec<BossUnit>,
    projectiles: &mut Vec<Projectile>,
) -> (effects: Vec<Effect>)
    requires
        bosses_sound(old(bosses)@),
        projectiles_sound(views(old(projectiles)@)),
        boss_headroom(*old(game), old(bosses)@),
    ensures
        (BossBattle {
            game: *final(game),
            boss_state: *final(boss_state),
            bosses: final(bosses)@,
            projectiles: views(final(projectiles)@),
            effects: effects@,
        }) == boss_events(
            BossBattle {
                game: *old(game),
                boss_state: *old(boss_state),
                bosses: old(bosses)@,
                projectiles: views(old(projectiles)@),
                effects: Seq::empty(),
            },
            events@,
            events@.len() as int,
        ),
        bosses_sound(final(bosses)@),
        projectiles_sound(views(final(projectiles)@)),
        boss_headroom(*final(game), final(bosses)@),
{
    let mut effects: Vec<Effect> = Vec::new();
    let ghost start = BossBattle {
        game: *game,
        boss_state: *boss_state,
        bosses: bosses@,
        projectiles: views(projectiles@),
        effects: Seq::empty(),
    };
    let mut k: usize = 0;
    while k < events.len()
        invariant
            k <= events@.len(),
            (BossBattle {
                game: *game,
                boss_state: *boss_state,
                bosses: bosses@,
                projectiles: views(projectiles@),
                effects: effects@,
            }) == boss_events(start, events@, k as int),
            bosses_sound(bosses@),
            projectiles_sound(views(projectiles@)),
            boss_headroom(*game, bosses@),
        decreases events@.len() - k,
    {
        boss_event(&events[k], game, boss_state, bosses, projectiles, &mut effects);
        k = k + 1;
    }
    effects
}

/// A hit puts the boss into the phase of the health it has left, in the very
/// hit: whatever phase it was in, it is then in phase 1 above six tenths of its
/// full health, in phase 2 above three tenths, else in phase 3.
pub proof fn lemma_hit_sets_phase(game: GameData, state: BossState, bosses: Seq<BossUnit>, i: int, damage: int)
    requires
        0 <= i < bosses.len(),
        i32::MIN <= bosses[i].boss.health - damage <= i32::MAX,
    ensures
        ({
            let after = hit_boss(game, state, bosses, i, damage).2[i].boss;
            &&& after.health == bosses[i].boss.health - damage
            &&& after.max_health == bosses[i].boss.max_health
            &&& after.phase == phase_for(after.health as int, after.max_health as int)
            &&& 1 <= after.phase <= 3
        }),
{
}

/// A defeated boss ends the fight, and its value is awarded as score and as
/// experience alike.
pub proof fn lemma_boss_defeat(game: GameData, state: BossState, bosses: Seq<BossUnit>, i: int, damage: int)
    requires
        0 <= i < bosses.len(),
        bosses[i].boss.health - damage <= 0,
    ensures
        !hit_boss(game, state, bosses, i, damage).1.active,
        hit_boss(game, state, bosses, i, damage).1.current_health == 0,
        hit_boss(game, state, bosses, i, damage).2[i].despawned,
        hit_boss(game, state, bosses, i, damage).0 == game.with_score(
            bosses[i].boss.score_value as int,
        ).with_experience(bosses[i].boss.score_value as int),
{
}

} // verus!
