//! What a projectile carries: its damage, its remaining pierce and the list of
//! targets it has already struck.

use vstd::prelude::*;
use crate::geometry::Vec2D;
use crate::weapons::WeaponType;

verus! {

/// A plain bullet, of the player or of an enemy. It is gone after its first hit.
#[derive(Clone, Copy, PartialEq, Eq, Structural, Debug)]
pub struct Bullet {
    pub velocity: Vec2D,
    pub damage: i32,
    pub is_player_bullet: bool,
}

/// A projectile of one of the player's weapons.
#[derive(Clone, Copy, PartialEq, Eq, Structural, Debug)]
pub struct WeaponBullet {
    pub weapon_type: WeaponType,
    pub damage: i32,
    pub velocity: Vec2D,
    /// Time left, in microseconds.
    pub lifetime: i64,
}

/// A shot of a boss in flight.
#[derive(Clone, Copy, PartialEq, Eq, Structural, Debug)]
pub struct BossBullet {
    pub damage: i32,
    pub velocity: Vec2D,
    /// Time left, in microseconds.
    pub lifetime: i64,
}

/// Something that is only shown, for a while.
#[derive(Clone, Copy, PartialEq, Eq, Structural, Debug)]
pub struct EffectLifetime {
    /// Time left, in microseconds.
    pub remaining: i64,
}

/// Something that blinks for a while. All times are in microseconds.
#[derive(Clone, Copy, PartialEq, Eq, Structural, Debug)]
pub struct BlinkEffect {
    /// Time left.
    pub remaining: i64,
    /// Time from one flash to the next.
    pub period: i64,
    /// Time for which a flash shows.
    pub on_time: i64,
    /// Time since the last flash began.
    pub phase: i64,
}

/// The flash of a boss that was hit: it shows for 0.16 seconds every 0.35 seconds, for 0.75 seconds.
pub fn spawn_boss_hit_flash() -> (flash: BlinkEffect)
    ensures
        flash == (BlinkEffect { remaining: 750_000, period: 350_000, on_time: 160_000, phase: 0 }),
{
    BlinkEffect { remaining: 750_000, period: 350_000, on_time: 160_000, phase: 0 }
}

/// The value of `Pierce::remaining` that never runs out.
pub const INFINITE_PIERCE: u32 = u32::MAX;

/// Number of hits that a projectile still survives; `INFINITE_PIERCE` for all.
#[derive(Clone, Copy, PartialEq, Eq, Structural, Debug)]
pub struct Pierce {
    pub remaining: u32,
}

/// A rocket: it explodes on contact, when its time is up, or when it leaves the window.
#[derive(Clone, Copy, PartialEq, Eq, Structural, Debug)]
pub struct RocketBullet {
    pub target: Option<u64>,
    /// Whether the rocket has been pointed at its target.
    pub initialized: bool,
    pub speed: u32,
    pub explosion_radius: u32,
}

/// A pellet of the shotgun, with the direction in which it was fired.
#[derive(Clone, Copy, PartialEq, Eq, Structural, Debug)]
pub struct ShotgunPellet {
    pub spread_angle: i32,
}

/// A laser beam: a long rectangle that passes through enemies.
#[derive(Clone, Copy, PartialEq, Eq, Structural, Debug)]
pub struct LaserBeam {
    pub width: u32,
    pub length: u32,
}

/// A missile that steers. The turn rate is the share of the way towards its
/// target's direction that it turns in a second, in thousandths.
#[derive(Clone, Copy, PartialEq, Eq, Structural, Debug)]
pub struct HomingMissile {
    pub target: Option<u64>,
    pub turn_rate: u32,
    pub max_lifetime: i64,
    pub speed: u32,
}

/// An orb that circles the ship. The orbit speed is in angle units per second.
#[derive(Clone, Copy, PartialEq, Eq, Structural, Debug)]
pub struct AuraOrb {
    pub orbit_angle: i32,
    pub orbit_speed: u32,
    pub orbit_radius: u32,
}

/// A crescent wave.
#[derive(Clone, Copy, PartialEq, Eq, Structural, Debug)]
pub struct BeamWave {
    pub progress: u32,
    pub width: u32,
}

/// The ship that an orb of the aura circles.
#[derive(Clone, Copy, PartialEq, Eq, Structural, Debug)]
pub struct AuraOwner(pub u64);

/// A lightning chain under way, with the targets it has struck.
#[derive(Clone, Debug)]
pub struct LightningChain {
    pub bounces_remaining: u32,
    pub hit_entities: Vec<u64>,
}

/// A lightning strike to be resolved: it jumps from target to target.
#[derive(Clone, Copy, PartialEq, Eq, Structural, Debug)]
pub struct LightningCast {
    /// Number of targets at most.
    pub jumps: u32,
    /// Longest jump.
    pub range: u32,
    pub damage: i32,
}

/// The pierce after one more hit, and whether the projectile is gone: without
/// pierce it is gone; with infinite pierce it stays; otherwise one hit is used
/// up, and the projectile is gone when none is left.
pub open spec fn pierce_after_hit(pierce: Option<Pierce>) -> (Option<Pierce>, bool) {
    match pierce {
        None => (None, true),
        Some(p) => if p.remaining == INFINITE_PIERCE {
            (Some(p), false)
        } else if p.remaining > 1 {
            (Some(Pierce { remaining: (p.remaining - 1) as u32 }), false)
        } else {
            (Some(Pierce { remaining: 0 }), true)
        },
    }
}

/// Uses up one hit. Returns whether the projectile is gone.
pub fn consume_pierce(pierce: &mut Option<Pierce>) -> (gone: bool)
    ensures
        (*final(pierce), gone) == pierce_after_hit(*old(pierce)),
{
    match *pierce {
        None => true,
        Some(p) => {
            if p.remaining == INFINITE_PIERCE {
                false
            } else if p.remaining > 1 {
                *pierce = Some(Pierce { remaining: p.remaining - 1 });
                false
            } else {
                *pierce = Some(Pierce { remaining: 0 });
                true
            }
        },
    }
}

/// The targets that a projectile has struck, oldest first. A projectile that
/// keeps such a list strikes no target twice.
#[derive(Clone, Debug)]
pub struct HitList {
    pub entities: Vec<u64>,
}

impl View for HitList {
    type V = Seq<u64>;

    open spec fn view(&self) -> Seq<u64> {
        self.entities@
    }
}

impl Default for HitList {
    fn default() -> (list: HitList)
        ensures
            list@ == Seq::<u64>::empty(),
    {
        HitList { entities: Vec::new() }
    }
}

impl HitList {
    /// Whether `entity` has been struck.
    pub fn contains(&self, entity: u64) -> (found: bool)
        ensures
            found == self@.contains(entity),
    {
        let mut i: usize = 0;
        while i < self.entities.len()
            invariant
                i <= self.entities@.len(),
                forall|k: int| 0 <= k < i ==> self.entities@[k] != entity,
            decreases self.entities@.len() - i,
        {
            if self.entities[i] == entity {
                return true;
            }
            i = i + 1;
        }
        false
    }

    /// Notes a strike on `entity`. Returns whether it is the first one.
    pub fn record(&mut self, entity: u64) -> (first: bool)
        ensures
            first == !old(self)@.contains(entity),
            final(self)@ == if first {
                old(self)@.push(entity)
            } else {
                old(self)@
            },
    {
        if self.contains(entity) {
            false
        } else {
            self.entities.push(entity);
            true
        }
    }
}

/// The part of a projectile that decides whether a hit counts and whether the
/// projectile survives it.
pub struct Piercing {
    pub pierce: Option<Pierce>,
    pub hits: Option<Seq<u64>>,
    pub gone: bool,
}

impl Piercing {
    /// Whether a hit on `target` deals damage: the projectile is still there
    /// and has not struck the target before.
    pub open spec fn strikes(self, target: u64) -> bool {
        !self.gone && !(self.hits matches Some(h) && h.contains(target))
    }

    /// The state after a hit on `target`: a hit that deals damage is noted in
    /// the list and uses up pierce; any other changes nothing.
    pub open spec fn after(self, target: u64) -> Piercing {
        if self.strikes(target) {
            Piercing {
                pierce: pierce_after_hit(self.pierce).0,
                hits: match self.hits {
                    Some(h) => Some(h.push(target)),
                    None => None,
                },
                gone: pierce_after_hit(self.pierce).1,
            }
        } else {
            self
        }
    }

    /// The state after hits on `targets`, in order.
    pub open spec fn after_all(self, targets: Seq<u64>) -> Piercing
        decreases targets.len(),
    {
        if targets.len() == 0 {
            self
        } else {
            self.after_all(targets.drop_last()).after(targets.last())
        }
    }

    /// The targets among `targets` on which the hit dealt damage, in order.
    pub open spec fn struck(self, targets: Seq<u64>) -> Seq<u64>
        decreases targets.len(),
    {
        if targets.len() == 0 {
            Seq::empty()
        } else {
            let before = self.struck(targets.drop_last());
            if self.after_all(targets.drop_last()).strikes(targets.last()) {
                before.push(targets.last())
            } else {
                before
            }
        }
    }
}

/// A projectile with `n` hits of pierce, `n` at least 1 and finite, and with a
/// hit list deals damage at most `n` times, is gone exactly when it has dealt
/// damage `n` times, and never deals damage to a target that its list held or
/// that it struck earlier.
pub proof fn lemma_pierce_bounds_hits(n: u32, held: Seq<u64>, targets: Seq<u64>)
    requires
        1 <= n < INFINITE_PIERCE,
    ensures
        ({
            let start = Piercing { pierce: Some(Pierce { remaining: n }), hits: Some(held), gone: false };
            let end = start.after_all(targets);
            let struck = start.struck(targets);
            &&& struck.len() <= n
            &&& end.gone <==> struck.len() == n
            &&& !end.gone ==> end.pierce == Some(Pierce { remaining: (n - struck.len()) as u32 })
            &&& end.hits == Some(held + struck)
            &&& forall|i: int| 0 <= i < struck.len() ==> !held.contains(#[trigger] struck[i])
            &&& forall|i: int, j: int| 0 <= i < j < struck.len() ==> struck[i] != struck[j]
        }),
    decreases targets.len(),
{
    let start = Piercing { pierce: Some(Pierce { remaining: n }), hits: Some(held), gone: false };
    if targets.len() > 0 {
        let front = targets.drop_last();
        lemma_pierce_bounds_hits(n, held, front);
        let mid = start.after_all(front);
        let before = start.struck(front);
        let target = targets.last();
        if mid.strikes(target) {
            let struck = before.push(target);
            assert(held + struck =~= (held + before).push(target));
            assert(!(held + before).contains(target));
            assert forall|i: int| 0 <= i < struck.len() implies !held.contains(#[trigger] struck[i]) by {
                if i == before.len() {
                    if held.contains(target) {
                        let k = choose|k: int| 0 <= k < held.len() && held[k] == target;
                        assert((held + before)[k] == target);
                    }
                }
            }
            assert forall|i: int, j: int| 0 <= i < j < struck.len() implies struck[i] != struck[j] by {
                if j == before.len() {
                    if struck[i] == target {
                        assert((held + before)[held.len() + i] == target);
                    }
                }
            }
        }
    } else {
        assert(held + Seq::<u64>::empty() =~= held);
    }
}

/// With three hits of pierce and an empty hit list, three distinct targets
/// are struck and the third hit removes the projectile; no fourth is struck,
/// and a target that comes again in between is not struck again.
pub proof fn lemma_pierce_three(a: u64, b: u64, c: u64, d: u64)
    requires
        a != b,
        a != c,
        b != c,
    ensures
        ({
            let start = Piercing { pierce: Some(Pierce { remaining: 3 }), hits: Some(Seq::empty()), gone: false };
            &&& !start.after_all(seq![a]).gone
            &&& !start.after_all(seq![a, a, b]).gone
            &&& !start.after_all(seq![a, b]).gone
            &&& start.after_all(seq![a, b, c]).gone
            &&& start.struck(seq![a, b, a, c, d]) == seq![a, b, c]
        }),
{
    let start = Piercing { pierce: Some(Pierce { remaining: 3 }), hits: Some(Seq::<u64>::empty()), gone: false };
    let e = Seq::<u64>::empty();
    assert(start.after_all(e) == start);
    assert(start.struck(e) == e);
    let s1 = seq![a];
    assert(s1.drop_last() =~= e);
    let first = start.after_all(s1);
    assert(first == start.after(a));
    assert(first.hits == Some(e.push(a)));
    assert(start.struck(s1) == e.push(a));
    let s2 = seq![a, b];
    assert(s2.drop_last() =~= s1);
    let second = start.after_all(s2);
    assert(second == first.after(b));
    assert(first.strikes(b)) by {
        assert(e.push(a)[0] == a);
    }
    assert(second.hits == Some(e.push(a).push(b)));
    assert(start.struck(s2) == e.push(a).push(b));
    let s2a = seq![a, a];
    assert(s2a.drop_last() =~= s1);
    assert(!first.strikes(a)) by {
        assert(e.push(a)[0] == a);
    }
    assert(start.after_all(s2a) == first);
    let s3a = seq![a, a, b];
    assert(s3a.drop_last() =~= s2a);
    assert(start.after_all(s3a) == second);
    let s3 = seq![a, b, c];
    assert(s3.drop_last() =~= s2);
    assert(second.strikes(c)) by {
        assert(e.push(a).push(b)[0] == a);
        assert(e.push(a).push(b)[1] == b);
    }
    let third = start.after_all(s3);
    assert(third == second.after(c));
    assert(third.gone);
    let t3 = seq![a, b, a];
    assert(t3.drop_last() =~= s2);
    assert(!second.strikes(a)) by {
        assert(e.push(a).push(b)[0] == a);
    }
    assert(start.after_all(t3) == second);
    assert(start.struck(t3) == e.push(a).push(b));
    let t4 = seq![a, b, a, c];
    assert(t4.drop_last() =~= t3);
    assert(start.after_all(t4) == third);
    assert(start.struck(t4) == e.push(a).push(b).push(c));
    let t5 = seq![a, b, a, c, d];
    assert(t5.drop_last() =~= t4);
    assert(!third.strikes(d));
    assert(start.struck(t5) == e.push(a).push(b).push(c));
    assert(e.push(a).push(b).push(c) =~= seq![a, b, c]);
}

} // verus!
