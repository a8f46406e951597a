//! The lightning chain: from where it is cast it jumps to the nearest target
//! in range, from there to the nearest one not yet struck, and so on.

use vstd::prelude::*;
use crate::geometry::{lemma_square_bound, Vec2D};
use crate::projectiles::LightningCast;

verus! {

/// Something that lightning can strike.
#[derive(Clone, Copy, PartialEq, Eq, Structural, Debug)]
pub struct ChainTarget {
    pub entity: u64,
    pub position: Vec2D,
    pub is_boss: bool,
    /// Whether the target is gone already; lightning passes such a target by.
    pub despawned: bool,
}

/// Whether target `i` can be struck next: it is there, it has not been
/// struck, and it is no further than `range` from `from`.
pub open spec fn in_reach(targets: Seq<ChainTarget>, visited: Seq<usize>, from: Vec2D, range: int, i: int) -> bool {
    &&& 0 <= i < targets.len()
    &&& !targets[i].despawned
    &&& !visited.contains(i as usize)
    &&& targets[i].position.dist_sq(from) <= range * range
}

/// The nearest target in reach among the first `upto`; of several that are equally near, the first.
pub open spec fn nearest_upto(targets: Seq<ChainTarget>, visited: Seq<usize>, from: Vec2D, range: int, upto: int) -> Option<
    usize,
>
    decreases upto,
{
    if upto <= 0 {
        None
    } else {
        let before = nearest_upto(targets, visited, from, range, upto - 1);
        let last = upto - 1;
        if in_reach(targets, visited, from, range, last) && (before matches Some(b) ==> targets[last].position.dist_sq(
            from,
        ) < targets[b as int].position.dist_sq(from)) {
            Some(last as usize)
        } else {
            before
        }
    }
}

/// The nearest target in reach; of several that are equally near, the first.
pub open spec fn nearest(targets: Seq<ChainTarget>, visited: Seq<usize>, from: Vec2D, range: int) -> Option<usize> {
    nearest_upto(targets, visited, from, range, targets.len() as int)
}

/// What `nearest_upto` finds is in reach and no target in reach is nearer,
/// nor equally near and earlier; it finds nothing only if nothing is in reach.
pub proof fn lemma_nearest(targets: Seq<ChainTarget>, visited: Seq<usize>, from: Vec2D, range: int, upto: int)
    requires
        0 <= upto <= targets.len(),
        targets.len() <= usize::MAX,
    ensures
        match nearest_upto(targets, visited, from, range, upto) {
            Some(i) => {
                &&& i < upto
                &&& in_reach(targets, visited, from, range, i as int)
                &&& forall|j: int|
                    0 <= j < upto && #[trigger] in_reach(targets, visited, from, range, j) ==> {
                        let d_i = targets[i as int].position.dist_sq(from);
                        let d_j = targets[j].position.dist_sq(from);
                        d_i < d_j || (d_i == d_j && i <= j)
                    }
            },
            None => forall|j: int| 0 <= j < upto ==> !#[trigger] in_reach(targets, visited, from, range, j),
        },
    decreases upto,
{
    if upto > 0 {
        lemma_nearest(targets, visited, from, range, upto - 1);
    }
}

/// Where the chain stands after the hops `hops`: at the last target struck, or at its origin.
pub open spec fn chain_position(targets: Seq<ChainTarget>, origin: Vec2D, hops: Seq<usize>) -> Vec2D {
    if hops.len() == 0 {
        origin
    } else {
        targets[hops.last() as int].position
    }
}

/// The targets that the chain has struck after at most `jumps` hops, in order.
/// Each hop goes to the nearest target in reach of where the chain stands;
/// the chain ends when there is none.
pub open spec fn chain(targets: Seq<ChainTarget>, origin: Vec2D, range: int, jumps: int) -> Seq<usize>
    decreases jumps,
{
    if jumps <= 0 {
        Seq::empty()
    } else {
        let before = chain(targets, origin, range, jumps - 1);
        if before.len() < jumps - 1 {
            before
        } else {
            match nearest(targets, before, chain_position(targets, origin, before), range) {
                Some(i) => before.push(i),
                None => before,
            }
        }
    }
}

/// A chain that has ended stays as it is, however many hops it may still make.
pub proof fn lemma_chain_ended(targets: Seq<ChainTarget>, origin: Vec2D, range: int, jumps: int, more: int)
    requires
        0 <= jumps <= more,
        chain(targets, origin, range, jumps).len() == jumps ==> nearest(
            targets,
            chain(targets, origin, range, jumps),
            chain_position(targets, origin, chain(targets, origin, range, jumps)),
            range,
        ) is None,
    ensures
        chain(targets, origin, range, more) == chain(targets, origin, range, jumps),
    decreases more - jumps,
{
    lemma_chain_length(targets, origin, range, jumps);
    if more > jumps {
        lemma_chain_ended(targets, origin, range, jumps, more - 1);
    }
}

/// A chain of at most `jumps` hops strikes at most `jumps` targets.
pub proof fn lemma_chain_length(targets: Seq<ChainTarget>, origin: Vec2D, range: int, jumps: int)
    requires
        0 <= jumps,
    ensures
        chain(targets, origin, range, jumps).len() <= jumps,
    decreases jumps,
{
    if jumps > 0 {
        lemma_chain_length(targets, origin, range, jumps - 1);
    }
}

/// The chain strikes no target twice, every target it strikes exists, and
/// every hop goes to the nearest target in reach that was not struck before.
pub proof fn lemma_chain_greedy(targets: Seq<ChainTarget>, origin: Vec2D, range: int, jumps: int)
    requires
        0 <= jumps,
        targets.len() <= usize::MAX,
    ensures
        forall|k: int|
            0 <= k < chain(targets, origin, range, jumps).len() ==> nearest(
                targets,
                chain(targets, origin, range, jumps).take(k),
                chain_position(targets, origin, chain(targets, origin, range, jumps).take(k)),
                range,
            ) == Some(#[trigger] chain(targets, origin, range, jumps)[k]),
        forall|k: int|
            0 <= k < chain(targets, origin, range, jumps).len() ==> (#[trigger] chain(
                targets,
                origin,
                range,
                jumps,
            )[k]) < targets.len(),
        forall|k: int, m: int|
            0 <= k < m < chain(targets, origin, range, jumps).len() ==> chain(targets, origin, range, jumps)[k]
                != chain(targets, origin, range, jumps)[m],
    decreases jumps,
{
    if jumps > 0 {
        lemma_chain_greedy(targets, origin, range, jumps - 1);
        lemma_chain_length(targets, origin, range, jumps - 1);
        let before = chain(targets, origin, range, jumps - 1);
        let all = chain(targets, origin, range, jumps);
        if all.len() > before.len() {
            let from = chain_position(targets, origin, before);
            lemma_nearest(targets, before, from, range, targets.len() as int);
            let i = all[before.len() as int];
            assert(all.take(before.len() as int) =~= before);
            assert forall|k: int| 0 <= k < all.len() implies nearest(
                targets,
                all.take(k),
                chain_position(targets, origin, all.take(k)),
                range,
            ) == Some(#[trigger] all[k]) by {
                if k < before.len() {
                    assert(all.take(k) =~= before.take(k));
                    assert(all[k] == before[k]);
                }
            }
            assert forall|k: int, m: int| 0 <= k < m < all.len() implies all[k] != all[m] by {
                if m == before.len() {
                    assert(!before.contains(i));
                    if all[k] == i {
                        assert(before[k] == i);
                    }
                }
            }
        }
    }
}

fn visited_contains(visited: &Vec<usize>, i: usize) -> (found: bool)
    ensures
        found == visited@.contains(i),
{
    let mut k: usize = 0;
    while k < visited.len()
        invariant
            k <= visited@.len(),
            forall|m: int| 0 <= m < k ==> visited@[m] != i,
        decreases visited@.len() - k,
    {
        if visited[k] == i {
            return true;
        }
        k = k + 1;
    }
    false
}

/// The nearest target within `range` of `from` that is not among `visited`.
pub fn nearest_target(targets: &Vec<ChainTarget>, visited: &Vec<usize>, from: Vec2D, range: u32) -> (found: Option<
    usize,
>)
    ensures
        found == nearest(targets@, visited@, from, range as int),
{
    let reach: u128 = range as u128;
    proof {
        lemma_square_bound(reach as int, 0xffff_ffff);
    }
    let reach_sq: u128 = reach * reach;
    let mut best: Option<usize> = None;
    let mut best_distance: u128 = 0;
    let mut i: usize = 0;
    while i < targets.len()
        invariant
            i <= targets@.len(),
            reach_sq == range * range,
            best == nearest_upto(targets@, visited@, from, range as int, i as int),
            best matches Some(b) ==> b < i && best_distance == targets@[b as int].position.dist_sq(from),
        decreases targets@.len() - i,
    {
        let distance = targets[i].position.distance_squared(from);
        if !targets[i].despawned && distance <= reach_sq && !visited_contains(visited, i) {
            let nearer = match best {
                Some(_) => distance < best_distance,
                None => true,
            };
            if nearer {
                best = Some(i);
                best_distance = distance;
            }
        }
        i = i + 1;
    }
    best
}

/// Walks the chain of `cast` from `origin`. Returns the targets that it
/// strikes, in order, as indices into `targets`.
pub fn lightning_chain(origin: Vec2D, cast: &LightningCast, targets: &Vec<ChainTarget>) -> (hops: Vec<usize>)
    ensures
        hops@ == chain(targets@, origin, cast.range as int, cast.jumps as int),
{
    let mut hops: Vec<usize> = Vec::new();
    let mut current = origin;
    let mut made: u32 = 0;
    while made < cast.jumps
        invariant
            made <= cast.jumps,
            hops@.len() == made,
            hops@ == chain(targets@, origin, cast.range as int, made as int),
            current == chain_position(targets@, origin, hops@),
        decreases cast.jumps - made,
    {
        match nearest_target(targets, &hops, current, cast.range) {
            Some(i) => {
                proof {
                    vstd::std_specs::vec::axiom_spec_len(targets);
                    lemma_nearest(targets@, hops@, current, cast.range as int, targets@.len() as int);
                }
                hops.push(i);
                current = targets[i].position;
                made = made + 1;
            },
            None => {
                proof {
                    lemma_chain_ended(targets@, origin, cast.range as int, made as int, cast.jumps as int);
                }
                return hops;
            },
        }
    }
    hops
}

} // verus!
