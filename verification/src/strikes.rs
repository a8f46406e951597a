//! Strikes that reach several targets at once: the lightning chain, and the
//! rocket that explodes when its flight ends.

use vstd::prelude::*;
use crate::boss::BossState;
use crate::boss_combat::{
    boss_headroom, bosses_sound, hit_boss, strike_boss, BossUnit,
};
use crate::combat::{
    blast, blast_targets, coins_accounted, enemies_sound, evolved, explode, headroom, hit_enemy,
    shard_count, shards, strike_enemy, Effect, EnemyUnit,
};
use crate::geometry::Vec2D;
use crate::lightning::{chain, chain_position, lemma_chain_greedy, lemma_nearest, lightning_chain, ChainTarget};
use crate::motion::{advance, advanced, aim_at, aimed, out_of_bounds, outside, within_aim};
use crate::projectiles::{LightningCast, RocketBullet, WeaponBullet};
use crate::random::roll_range;
use crate::states::{GameConfig, GameData};

verus! {

/// What lightning can strike: the regular enemies, then the bosses.
pub open spec fn targets_of(enemies: Seq<EnemyUnit>, bosses: Seq<BossUnit>) -> Seq<ChainTarget> {
    Seq::new(
        enemies.len() + bosses.len(),
        |i: int|
            if i < enemies.len() {
                ChainTarget {
                    entity: enemies[i].entity,
                    position: enemies[i].position,
                    is_boss: false,
                    despawned: enemies[i].despawned,
                }
            } else {
                ChainTarget {
                    entity: bosses[i - enemies.len()].entity,
                    position: bosses[i - enemies.len()].position,
                    is_boss: true,
                    despawned: bosses[i - enemies.len()].despawned,
                }
            },
    )
}

/// Lists what lightning can strike.
pub fn chain_targets(enemies: &Vec<EnemyUnit>, bosses: &Vec<BossUnit>) -> (targets: Vec<ChainTarget>)
    requires
        enemies@.len() + bosses@.len() <= usize::MAX,
    ensures
        targets@ == targets_of(enemies@, bosses@),
{
    let mut targets: Vec<ChainTarget> = Vec::new();
    let mut i: usize = 0;
    while i < enemies.len()
        invariant
            i <= enemies@.len(),
            targets@.len() == i,
            forall|k: int| 0 <= k < i ==> targets@[k] == targets_of(enemies@, bosses@)[k],
        decreases enemies@.len() - i,
    {
        targets.push(
            ChainTarget {
                entity: enemies[i].entity,
                position: enemies[i].position,
                is_boss: false,
                despawned: enemies[i].despawned,
            },
        );
        i = i + 1;
    }
    let mut j: usize = 0;
    while j < bosses.len()
        invariant
            j <= bosses@.len(),
            enemies@.len() + bosses@.len() <= usize::MAX,
            targets@.len() == enemies@.len() + j,
            forall|k: int| 0 <= k < enemies@.len() + j ==> targets@[k] == targets_of(enemies@, bosses@)[k],
        decreases bosses@.len() - j,
    {
        targets.push(
            ChainTarget {
                entity: bosses[j].entity,
                position: bosses[j].position,
                is_boss: true,
                despawned: bosses[j].despawned,
            },
        );
        j = j + 1;
    }
    assert(targets@ =~= targets_of(enemies@, bosses@));
    targets
}

/// The state that a lightning strike works on.
pub struct Storm {
    pub game: GameData,
    pub boss_state: BossState,
    pub enemies: Seq<EnemyUnit>,
    pub bosses: Seq<BossUnit>,
}

/// The state after the targets `hops` took `damage` each, in order. A hop
/// below the number of enemies is that enemy, any other the boss that many further on.
pub open spec fn struck_by(storm: Storm, boss_active: bool, hops: Seq<usize>, damage: int) -> Storm
    decreases hops.len(),
{
    if hops.len() == 0 {
        storm
    } else {
        let before = struck_by(storm, boss_active, hops.drop_last(), damage);
        let hop = hops.last() as int;
        if hop < before.enemies.len() {
            let (game, enemies) = hit_enemy(before.game, before.enemies, boss_active, hop, damage);
            Storm { game, enemies, ..before }
        } else {
            let (game, boss_state, bosses) = hit_boss(
                before.game,
                before.boss_state,
                before.bosses,
                hop - before.enemies.len(),
                damage,
            );
            Storm { game, boss_state, bosses, ..before }
        }
    }
}

/// The bolts of a chain: each leads from where the chain stood to the target it struck.
pub open spec fn bolts(targets: Seq<ChainTarget>, origin: Vec2D, hops: Seq<usize>) -> Seq<(Vec2D, Vec2D)> {
    Seq::new(
        hops.len(),
        |k: int| (chain_position(targets, origin, hops.take(k)), targets[hops[k] as int].position),
    )
}

/// What a lightning strike brought about.
#[derive(Debug)]
pub struct LightningReport {
    /// The bolts to draw, in order.
    pub segments: Vec<(Vec2D, Vec2D)>,
    /// Where destroyed enemies left a coin.
    pub coin_drops: Vec<Vec2D>,
}

/// Resolves a lightning strike cast at `origin`: walks the chain over the
/// enemies and bosses that are there, then deals the cast's damage to each
/// target struck, in the order of the chain.
pub fn resolve_lightning_cast(
    origin: Vec2D,
    cast: &LightningCast,
    game: &mut GameData,
    boss_active: bool,
    boss_state: &mut BossState,
    enemies: &mut Vec<EnemyUnit>,
    bosses: &mut Vec<BossUnit>,
) -> (report: LightningReport)
    requires
        cast.damage >= 0,
        old(enemies)@.len() + old(bosses)@.len() <= usize::MAX,
        enemies_sound(old(enemies)@),
        bosses_sound(old(bosses)@),
        headroom(*old(game), old(enemies)@),
        boss_headroom(*old(game), old(bosses)@),
        old(game).score + crate::combat::pending_score(old(enemies)@) + crate::boss_combat::pending_boss_score(
            old(bosses)@,
        ) <= u32::MAX,
        old(game).experience + crate::combat::pending_score(old(enemies)@)
            + crate::boss_combat::pending_boss_score(old(bosses)@) <= u32::MAX,
        old(game).player_level + crate::combat::pending_count(old(enemies)@)
            + crate::boss_combat::pending_boss_count(old(bosses)@) <= u32::MAX,
    ensures
        ({
            let targets = targets_of(old(enemies)@, old(bosses)@);
            let hops = chain(targets, origin, cast.range as int, cast.jumps as int);
            &&& (Storm {
                game: *final(game),
                boss_state: *final(boss_state),
                enemies: final(enemies)@,
                bosses: final(bosses)@,
            }) == struck_by(
                Storm {
                    game: *old(game),
                    boss_state: *old(boss_state),
                    enemies: old(enemies)@,
                    bosses: old(bosses)@,
                },
                boss_active,
                hops,
                cast.damage as int,
            )
            &&& report.segments@ == bolts(targets, origin, hops)
        }),
        enemies_sound(final(enemies)@),
        bosses_sound(final(bosses)@),
        evolved(old(enemies)@, final(enemies)@),
        coins_accounted(old(enemies)@, final(enemies)@, report.coin_drops@),
{
    let targets = chain_targets(enemies, bosses);
    let hops = lightning_chain(origin, cast, &targets);
    let mut segments: Vec<(Vec2D, Vec2D)> = Vec::new();
    let mut coin_drops: Vec<Vec2D> = Vec::new();
    let ghost entry = enemies@;
    let ghost entry_bosses = bosses@;
    let ghost start = Storm { game: *game, boss_state: *boss_state, enemies: enemies@, bosses: bosses@ };
    let count = enemies.len();
    proof {
        lemma_chain_greedy(targets@, origin, cast.range as int, cast.jumps as int);
        assert forall|a: int| 0 <= a < hops@.len() implies !(#[trigger] targets@[hops@[a] as int]).despawned by {
            lemma_nearest(
                targets@,
                hops@.take(a),
                chain_position(targets@, origin, hops@.take(a)),
                cast.range as int,
                targets@.len() as int,
            );
        }
        crate::combat::lemma_pending_nonnegative(enemies@);
        crate::boss_combat::lemma_pending_boss_nonnegative(bosses@);
    }
    let mut current = origin;
    let mut k: usize = 0;
    while k < hops.len()
        invariant
            k <= hops@.len(),
            cast.damage >= 0,
            count == entry.len(),
            targets@ == targets_of(entry, entry_bosses),
            forall|a: int| 0 <= a < hops@.len() ==> (#[trigger] hops@[a]) < targets@.len(),
            forall|a: int| 0 <= a < hops@.len() ==> !(#[trigger] targets@[hops@[a] as int]).despawned,
            forall|a: int, b: int| 0 <= a < b < hops@.len() ==> hops@[a] != hops@[b],
            enemies@.len() == entry.len(),
            bosses@.len() == entry_bosses.len(),
            forall|a: int|
                k <= a < hops@.len() && (#[trigger] hops@[a]) < count ==> enemies@[hops@[a] as int]
                    == entry[hops@[a] as int],
            forall|a: int|
                k <= a < hops@.len() && (#[trigger] hops@[a]) >= count ==> bosses@[hops@[a] - count]
                    == entry_bosses[hops@[a] - count],
            (Storm { game: *game, boss_state: *boss_state, enemies: enemies@, bosses: bosses@ }) == struck_by(
                start,
                boss_active,
                hops@.take(k as int),
                cast.damage as int,
            ),
            current == chain_position(targets@, origin, hops@.take(k as int)),
            segments@ == bolts(targets@, origin, hops@.take(k as int)),
            enemies_sound(enemies@),
            bosses_sound(bosses@),
            game.score + crate::combat::pending_score(enemies@) + crate::boss_combat::pending_boss_score(bosses@)
                <= u32::MAX,
            game.experience + crate::combat::pending_score(enemies@) + crate::boss_combat::pending_boss_score(
                bosses@,
            ) <= u32::MAX,
            game.player_level + crate::combat::pending_count(enemies@) + crate::boss_combat::pending_boss_count(
                bosses@,
            ) <= u32::MAX,
            evolved(entry, enemies@),
            coins_accounted(entry, enemies@, coin_drops@),
        decreases hops@.len() - k,
    {
        let hop = hops[k];
        let target_position = targets[hop].position;
        proof {
            assert(hops@.take(k as int + 1).drop_last() =~= hops@.take(k as int));
            assert(hops@.take(k as int + 1).last() == hop);
            assert(targets@[hops@[k as int] as int] == targets_of(entry, entry_bosses)[hop as int]);
            crate::combat::lemma_pending_nonnegative(enemies@);
            crate::boss_combat::lemma_pending_boss_nonnegative(bosses@);
        }
        segments.push((current, target_position));
        if hop < count {
            strike_enemy(game, boss_active, enemies, hop, cast.damage, &mut coin_drops, Ghost(entry));
        } else {
            strike_boss(game, boss_state, bosses, hop - count, cast.damage);
        }
        current = target_position;
        k = k + 1;
        proof {
            assert(segments@ =~= bolts(targets@, origin, hops@.take(k as int)));
        }
    }
    proof {
        assert(hops@.take(k as int) =~= hops@);
    }
    LightningReport { segments, coin_drops }
}

/// How a rocket leaves: pointed at its target, or in a drawn direction.
#[derive(Clone, Copy, PartialEq, Eq, Structural, Debug)]
pub enum RocketLaunch {
    /// With this velocity.
    Aimed { velocity: Vec2D },
    /// In this direction, at the rocket's speed.
    Heading { heading: i32 },
}

/// Widest deviation of an unaimed rocket from straight up, to either side: 0.4 radians.
pub const ROCKET_SCATTER: i32 = 22_918;

/// Decides how a rocket leaves. With a target it flies straight towards it;
/// without one it flies upwards in a drawn direction.
pub fn rocket_launch(position: Vec2D, rocket: &RocketBullet, target: Option<Vec2D>) -> (launch: RocketLaunch)
    requires
        rocket.speed <= i32::MAX,
        within_aim(position),
        target matches Some(t) ==> within_aim(t),
    ensures
        match target {
            Some(t) => launch == (RocketLaunch::Aimed { velocity: aimed(position, t, rocket.speed as int) }),
            None => launch matches RocketLaunch::Heading { heading } && 90_000 - ROCKET_SCATTER <= heading < 90_000
                + ROCKET_SCATTER,
        },
{
    match target {
        Some(t) => RocketLaunch::Aimed { velocity: aim_at(position, t, rocket.speed) },
        None => RocketLaunch::Heading {
            heading: (90_000 + roll_range(-(ROCKET_SCATTER as i64), ROCKET_SCATTER as i64)) as i32,
        },
    }
}

/// What a frame did to a rocket.
#[derive(Debug)]
pub struct RocketReport {
    /// Where the rocket is after the frame.
    pub position: Vec2D,
    /// The burst of the explosion, if the rocket exploded; it is then removed.
    pub explosion: Option<Effect>,
    /// Where destroyed enemies left a coin.
    pub coin_drops: Vec<Vec2D>,
}

/// Whether the flight of a rocket ends in this frame: its time is up, or it
/// has left the window by more than 50 pixels.
pub open spec fn flight_ends(config: GameConfig, moved: Vec2D, lifetime: int, delta: int) -> bool {
    outside(config, moved, 50_000) || lifetime - delta <= 0
}

/// Moves a rocket for one frame. A rocket that has not been pointed yet takes
/// the velocity `launch`. When its flight ends it explodes where it is: every
/// enemy in reach takes the rocket's damage.
pub fn update_rocket_bullet(
    config: &GameConfig,
    position: Vec2D,
    bullet: &mut WeaponBullet,
    rocket: &mut RocketBullet,
    launch: Vec2D,
    delta: u32,
    game: &mut GameData,
    boss_active: bool,
    enemies: &mut Vec<EnemyUnit>,
) -> (report: RocketReport)
    requires
        old(bullet).lifetime - delta >= i64::MIN,
        old(bullet).damage >= 0,
        enemies_sound(old(enemies)@),
        headroom(*old(game), old(enemies)@),
    ensures
        ({
            let velocity = if old(rocket).initialized {
                old(bullet).velocity
            } else {
                launch
            };
            let moved = advanced(position, velocity, delta as int);
            let ends = flight_ends(*config, moved, old(bullet).lifetime as int, delta as int);
            &&& *final(bullet) == (WeaponBullet {
                lifetime: (old(bullet).lifetime - delta) as i64,
                velocity,
                ..*old(bullet)
            })
            &&& *final(rocket) == (RocketBullet { initialized: true, ..*old(rocket) })
            &&& report.position == moved
            &&& (*final(game), final(enemies)@) == if ends {
                blast(
                    *old(game),
                    old(enemies)@,
                    boss_active,
                    blast_targets(
                        old(enemies)@,
                        moved,
                        old(rocket).explosion_radius as int,
                        old(enemies)@.len() as int,
                    ),
                    old(bullet).damage as int,
                )
            } else {
                (*old(game), old(enemies)@)
            }
            &&& report.explosion == if ends {
                Some(
                    Effect::RocketExplosion {
                        position: moved,
                        shard_count: shards(old(rocket).explosion_radius as int) as u32,
                        base_speed: old(rocket).speed,
                    },
                )
            } else {
                None
            }
        }),
        enemies_sound(final(enemies)@),
        headroom(*final(game), final(enemies)@),
        evolved(old(enemies)@, final(enemies)@),
        coins_accounted(old(enemies)@, final(enemies)@, report.coin_drops@),
{
    let mut coin_drops: Vec<Vec2D> = Vec::new();
    bullet.lifetime -= delta as i64;
    if !rocket.initialized {
        bullet.velocity = launch;
        rocket.initialized = true;
    }
    let moved = advance(position, bullet.velocity, delta);
    let ends = out_of_bounds(config, moved, 50_000) || bullet.lifetime <= 0;
    if ends {
        let ghost entry = enemies@;
        explode(
            game,
            boss_active,
            enemies,
            moved,
            rocket.explosion_radius,
            bullet.damage,
            &mut coin_drops,
            Ghost(entry),
        );
        RocketReport {
            position: moved,
            explosion: Some(
                Effect::RocketExplosion {
                    position: moved,
                    shard_count: shard_count(rocket.explosion_radius),
                    base_speed: rocket.speed,
                },
            ),
            coin_drops,
        }
    } else {
        RocketReport { position: moved, explosion: None, coin_drops }
    }
}

/// A shard of an explosion. It is only shown.
#[derive(Clone, Copy, PartialEq, Eq, Structural, Debug)]
pub struct Shard {
    /// The direction in which it flies.
    pub heading: i32,
    pub speed: u32,
    /// Half its length.
    pub size: u32,
    /// Time after which it vanishes, in microseconds.
    pub lifetime: i64,
}

/// Number of shards that are shown for a wanted number of `count`: no fewer than 6 and no more than 48.
pub open spec fn shown_shards(count: int) -> int {
    crate::collision::clamp(count, 6, 48)
}

/// Whether a shard of an explosion with `base_speed` lies in its ranges: any
/// direction, 35 to 95 hundredths of the speed, 3.5 to 6.5 pixels, 0.18 to 0.42 seconds.
pub open spec fn shard_valid(shard: Shard, base_speed: u32) -> bool {
    &&& 0 <= shard.heading < 360_000
    &&& base_speed * 350 / 1000 <= shard.speed <= base_speed * 950 / 1000
    &&& 3_500 <= shard.size < 6_500
    &&& 180_000 <= shard.lifetime < 420_000
}

/// Draws the shards of an explosion.
pub fn spawn_rocket_explosion_particles(count: u32, base_speed: u32) -> (shards: Vec<Shard>)
    ensures
        shards@.len() == shown_shards(count as int),
        forall|i: int| 0 <= i < shards@.len() ==> shard_valid(#[trigger] shards@[i], base_speed),
{
    let shown: u32 = if count < 6 {
        6
    } else if count > 48 {
        48
    } else {
        count
    };
    let mut shards: Vec<Shard> = Vec::new();
    let mut i: u32 = 0;
    while i < shown
        invariant
            i <= shown,
            shards@.len() == i,
            forall|k: int| 0 <= k < shards@.len() ==> shard_valid(#[trigger] shards@[k], base_speed),
        decreases shown - i,
    {
        let permille = roll_range(350, 950) as u64;
        assert(base_speed * 350 <= base_speed * permille <= base_speed * 950) by (nonlinear_arith)
            requires
                350 <= permille <= 950,
                0 <= base_speed,
        ;
        assert(base_speed * 950 <= 0xffff_ffff * 950) by (nonlinear_arith)
            requires
                0 <= base_speed <= 0xffff_ffff,
        ;
        shards.push(
            Shard {
                heading: roll_range(0, 360_000) as i32,
                speed: (base_speed as u64 * permille / 1000) as u32,
                size: roll_range(3_500, 6_500) as u32,
                lifetime: roll_range(180_000, 420_000),
            },
        );
        i = i + 1;
    }
    shards
}

/// A spark of a hit: a short line from where the projectile struck. It is only shown.
#[derive(Clone, Copy, PartialEq, Eq, Structural, Debug)]
pub struct Spark {
    /// The direction in which the line points.
    pub heading: i32,
    pub length: u32,
    /// Orange rather than yellow.
    pub orange: bool,
}

/// Time for which the sparks of a hit are shown, in microseconds.
pub const SPARK_LIFETIME: i64 = 140_000;

/// Draws the sparks of a hit: five to eight lines of 10 to 16 pixels in any
/// direction, yellow and orange by turns.
pub fn spawn_hit_sparks() -> (sparks: Vec<Spark>)
    ensures
        5 <= sparks@.len() <= 8,
        forall|i: int|
            0 <= i < sparks@.len() ==> {
                &&& 0 <= (#[trigger] sparks@[i]).heading < 360_000
                &&& 10_000 <= sparks@[i].length < 16_000
                &&& sparks@[i].orange == (i % 2 == 1)
            },
{
    let count = roll_range(5, 9) as u32;
    let mut sparks: Vec<Spark> = Vec::new();
    let mut i: u32 = 0;
    while i < count
        invariant
            i <= count,
            sparks@.len() == i,
            forall|k: int|
                0 <= k < sparks@.len() ==> {
                    &&& 0 <= (#[trigger] sparks@[k]).heading < 360_000
                    &&& 10_000 <= sparks@[k].length < 16_000
                    &&& sparks@[k].orange == (k % 2 == 1)
                },
        decreases count - i,
    {
        sparks.push(
            Spark {
                heading: roll_range(0, 360_000) as i32,
                length: roll_range(10_000, 16_000) as u32,
                orange: i % 2 == 1,
            },
        );
        i = i + 1;
    }
    sparks
}

} // verus!
