//! Integer geometry: points, collision shapes, square roots and bounding radii.

use vstd::prelude::*;

verus! {

/// Length units in one pixel.
pub const UNITS_PER_PIXEL: i32 = 1000;

/// A point or a displacement in the plane.
#[derive(Clone, Copy, PartialEq, Eq, Structural, Debug)]
pub struct Vec2D {
    pub x: i32,
    pub y: i32,
}

impl Vec2D {
    pub fn new(x: i32, y: i32) -> (v: Vec2D)
        ensures
            v == (Vec2D { x, y }),
    {
        Vec2D { x, y }
    }

    /// The origin.
    pub fn zero() -> (v: Vec2D)
        ensures
            v == (Vec2D { x: 0, y: 0 }),
    {
        Vec2D { x: 0, y: 0 }
    }

    /// Squared length of the vector.
    pub open spec fn norm_sq(self) -> int {
        self.x * self.x + self.y * self.y
    }

    /// Squared distance between two points.
    pub open spec fn dist_sq(self, other: Vec2D) -> int {
        (self.x - other.x) * (self.x - other.x) + (self.y - other.y) * (self.y - other.y)
    }

    /// Squared distance between two points. It is at most `2^65`.
    pub fn distance_squared(self, other: Vec2D) -> (d: u128)
        ensures
            d == self.dist_sq(other),
            d <= 0x2_0000_0000_0000_0000,
    {
        let dx: i128 = self.x as i128 - other.x as i128;
        let dy: i128 = self.y as i128 - other.y as i128;
        proof {
            lemma_square_bound(dx as int, 0x1_0000_0000);
            lemma_square_bound(dy as int, 0x1_0000_0000);
        }
        (dx * dx + dy * dy) as u128
    }

    /// Squared length of the vector.
    pub fn length_squared(self) -> (d: u64)
        ensures
            d == self.norm_sq(),
            d <= 0x8000_0000_0000_0000,
    {
        let x: i128 = self.x as i128;
        let y: i128 = self.y as i128;
        proof {
            lemma_square_bound(x as int, 0x8000_0000);
            lemma_square_bound(y as int, 0x8000_0000);
        }
        (x * x + y * y) as u64
    }
}

/// `|a| <= b` gives `0 <= a * a <= b * b`.
pub proof fn lemma_square_bound(a: int, b: int)
    by (nonlinear_arith)
    requires
        -b <= a <= b,
    ensures
        0 <= a * a <= b * b,
{
}

/// Squares are monotone on the non-negative integers, strictly.
pub proof fn lemma_square_monotone(a: int, b: int)
    by (nonlinear_arith)
    requires
        0 <= a,
        0 <= b,
    ensures
        a <= b <==> a * a <= b * b,
        a < b <==> a * a < b * b,
{
}

/// `r` is the integer square root of `n`, rounded down.
pub open spec fn is_floor_sqrt(n: int, r: int) -> bool {
    0 <= r && r * r <= n < (r + 1) * (r + 1)
}

/// The integer square root of `n`, rounded down.
pub open spec fn floor_sqrt(n: int) -> int {
    choose|r: int| is_floor_sqrt(n, r)
}

/// `r` is the integer square root of `n`, rounded up.
pub open spec fn is_ceil_sqrt(n: int, r: int) -> bool {
    0 <= r && n <= r * r && (r > 0 ==> (r - 1) * (r - 1) < n)
}

/// The integer square root of `n`, rounded up.
pub open spec fn ceil_sqrt(n: int) -> int {
    choose|r: int| is_ceil_sqrt(n, r)
}

/// At most one integer is the rounded-down square root of `n`, so any witness is `floor_sqrt(n)`.
pub proof fn lemma_floor_sqrt_unique(n: int, r: int)
    requires
        is_floor_sqrt(n, r),
    ensures
        floor_sqrt(n) == r,
{
    let s = floor_sqrt(n);
    assert(is_floor_sqrt(n, s));
    lemma_square_monotone(r + 1, s);
    lemma_square_monotone(s + 1, r);
}

/// At most one integer is the rounded-up square root of `n`, so any witness is `ceil_sqrt(n)`.
pub proof fn lemma_ceil_sqrt_unique(n: int, r: int)
    requires
        is_ceil_sqrt(n, r),
    ensures
        ceil_sqrt(n) == r,
{
    let s = ceil_sqrt(n);
    assert(is_ceil_sqrt(n, s));
    if 0 < r {
        lemma_square_monotone(s, r - 1);
    }
    if 0 < s {
        lemma_square_monotone(r, s - 1);
    }
}

/// Integer square root, rounded down.
pub fn isqrt(n: u64) -> (r: u32)
    ensures
        is_floor_sqrt(n as int, r as int),
        r == floor_sqrt(n as int),
{
    let mut lo: u64 = 0;
    let mut hi: u64 = 0x1_0000_0000;
    assert(hi * hi > n) by (nonlinear_arith)
        requires
            hi == 0x1_0000_0000,
            n <= 0xffff_ffff_ffff_ffff,
    ;
    while hi - lo > 1
        invariant
            lo < hi <= 0x1_0000_0000,
            lo * lo <= n < hi * hi,
        decreases hi - lo,
    {
        let mid: u64 = lo + (hi - lo) / 2;
        proof {
            lemma_square_bound(mid as int, 0xffff_ffff);
        }
        if mid * mid <= n {
            lo = mid;
        } else {
            hi = mid;
        }
    }
    proof {
        lemma_floor_sqrt_unique(n as int, lo as int);
    }
    lo as u32
}

/// Integer square root, rounded up.
pub fn isqrt_ceil(n: u64) -> (r: u64)
    ensures
        is_ceil_sqrt(n as int, r as int),
        r == ceil_sqrt(n as int),
        r <= 0x1_0000_0000,
{
    let f: u64 = isqrt(n) as u64;
    proof {
        lemma_square_bound(f as int, 0xffff_ffff);
    }
    let r: u64 = if f * f == n {
        f
    } else {
        f + 1
    };
    proof {
        if f * f == n {
            if f > 0 {
                lemma_square_monotone(f - 1, f as int);
            }
        } else {
            assert((r - 1) * (r - 1) == f * f);
            assert(r * r == (f + 1) * (f + 1));
        }
        lemma_ceil_sqrt_unique(n as int, r as int);
    }
    r
}

/// The shape that stands for an entity in collision tests. No shape is rotated.
#[derive(Clone, Debug)]
pub enum CollisionShape {
    /// A disc around the entity's position.
    Circle { radius: u32 },
    /// An axis-aligned rectangle centred on the entity's position.
    Rectangle { width: u32, height: u32 },
    /// A polygon, given by its vertices relative to the entity's position.
    /// Collision tests replace it by its bounding circle.
    Polygon { vertices: Vec<Vec2D> },
}

impl Default for CollisionShape {
    fn default() -> (shape: CollisionShape)
        ensures
            shape == (CollisionShape::Circle { radius: 10_000 }),
    {
        CollisionShape::Circle { radius: 10_000 }
    }
}

/// The largest squared distance from the origin among `vertices`; 0 when there is none.
pub open spec fn max_norm_sq(vertices: Seq<Vec2D>) -> int
    decreases vertices.len(),
{
    if vertices.len() == 0 {
        0
    } else {
        let rest = max_norm_sq(vertices.drop_last());
        let last = vertices.last().norm_sq();
        if last > rest {
            last
        } else {
            rest
        }
    }
}

/// Radius of the bounding circle of a polygon: the least whole radius around the
/// origin that reaches every vertex.
pub open spec fn bounding_radius(vertices: Seq<Vec2D>) -> int {
    ceil_sqrt(max_norm_sq(vertices))
}

/// `max_norm_sq` bounds every vertex and is attained by one of them, unless there is none.
pub proof fn lemma_max_norm_sq(vertices: Seq<Vec2D>)
    ensures
        0 <= max_norm_sq(vertices) <= 0x8000_0000_0000_0000,
        forall|i: int| 0 <= i < vertices.len() ==> (#[trigger] vertices[i]).norm_sq() <= max_norm_sq(vertices),
        vertices.len() == 0 ==> max_norm_sq(vertices) == 0,
        vertices.len() > 0 ==> exists|i: int|
            0 <= i < vertices.len() && (#[trigger] vertices[i]).norm_sq() == max_norm_sq(vertices),
    decreases vertices.len(),
{
    if vertices.len() > 0 {
        let rest = vertices.drop_last();
        lemma_max_norm_sq(rest);
        let last = vertices.last();
        lemma_square_bound(last.x as int, 0x8000_0000);
        lemma_square_bound(last.y as int, 0x8000_0000);
        assert forall|i: int| 0 <= i < vertices.len() implies (#[trigger] vertices[i]).norm_sq()
            <= max_norm_sq(vertices) by {
            if i < vertices.len() - 1 {
                assert(vertices[i] == rest[i]);
            }
        }
        if last.norm_sq() > max_norm_sq(rest) || rest.len() == 0 {
            assert(vertices[vertices.len() - 1].norm_sq() == max_norm_sq(vertices));
        } else {
            let i = choose|i: int| 0 <= i < rest.len() && (#[trigger] rest[i]).norm_sq() == max_norm_sq(rest);
            assert(vertices[i] == rest[i]);
        }
    }
}

/// The bounding circle reaches every vertex, and no smaller whole radius does.
pub proof fn lemma_bounding_radius(vertices: Seq<Vec2D>)
    ensures
        0 <= bounding_radius(vertices) <= 0x1_0000_0000,
        forall|i: int| 0 <= i < vertices.len() ==> (#[trigger] vertices[i]).norm_sq() <= bounding_radius(
            vertices,
        ) * bounding_radius(vertices),
        bounding_radius(vertices) > 0 ==> exists|i: int|
            0 <= i < vertices.len() && (#[trigger] vertices[i]).norm_sq() > (bounding_radius(vertices) - 1)
                * (bounding_radius(vertices) - 1),
{
    lemma_max_norm_sq(vertices);
    let m = max_norm_sq(vertices);
    let r = bounding_radius(vertices);
    lemma_ceil_sqrt_exists(m);
    assert(is_ceil_sqrt(m, r));
    if r > 0x1_0000_0000 {
        lemma_square_monotone(0x1_0000_0000, r - 1);
    }
    if r > 0 {
        assert(vertices.len() > 0) by {
            if vertices.len() == 0 {
                assert((r - 1) * (r - 1) >= 0) by (nonlinear_arith);
            }
        }
        let i = choose|i: int| 0 <= i < vertices.len() && (#[trigger] vertices[i]).norm_sq() == m;
        assert(vertices[i].norm_sq() > (r - 1) * (r - 1));
    }
}

/// Every natural number has a rounded-up square root.
pub proof fn lemma_ceil_sqrt_exists(n: int)
    requires
        0 <= n,
    ensures
        is_ceil_sqrt(n, ceil_sqrt(n)),
{
    lemma_floor_sqrt_exists(n);
    let f = floor_sqrt(n);
    if f * f == n {
        if f > 0 {
            lemma_square_monotone(f - 1, f);
        }
        assert(is_ceil_sqrt(n, f));
    } else {
        assert(f + 1 - 1 == f);
        assert(is_ceil_sqrt(n, f + 1));
    }
}

/// Every natural number has a rounded-down square root.
pub proof fn lemma_floor_sqrt_exists(n: int)
    requires
        0 <= n,
    ensures
        is_floor_sqrt(n, floor_sqrt(n)),
{
    assert((n + 1) * (n + 1) > n) by (nonlinear_arith)
        requires
            0 <= n,
    ;
    lemma_floor_sqrt_search(n, 0, n + 1);
}

proof fn lemma_floor_sqrt_search(n: int, lo: int, hi: int)
    requires
        0 <= lo < hi,
        lo * lo <= n < hi * hi,
    ensures
        is_floor_sqrt(n, floor_sqrt(n)),
    decreases hi - lo,
{
    if hi - lo == 1 {
        assert(is_floor_sqrt(n, lo));
    } else {
        let mid = lo + 1;
        if mid * mid <= n {
            lemma_floor_sqrt_search(n, mid, hi);
        } else {
            assert(is_floor_sqrt(n, lo));
        }
    }
}

/// Radius of the bounding circle of a polygon: the least whole radius around the
/// origin that reaches every vertex, 0 for no vertex.
pub fn polygon_bounding_radius(vertices: &Vec<Vec2D>) -> (r: u64)
    ensures
        r == bounding_radius(vertices@),
        r <= 0x1_0000_0000,
{
    let mut best: u64 = 0;
    let mut i: usize = 0;
    while i < vertices.len()
        invariant
            i <= vertices.len(),
            best == max_norm_sq(vertices@.take(i as int)),
        decreases vertices.len() - i,
    {
        let d = vertices[i].length_squared();
        proof {
            assert(vertices@.take(i as int + 1).drop_last() =~= vertices@.take(i as int));
            assert(vertices@.take(i as int + 1).last() == vertices@[i as int]);
        }
        if d > best {
            best = d;
        }
        i = i + 1;
    }
    proof {
        assert(vertices@.take(i as int) =~= vertices@);
    }
    isqrt_ceil(best)
}

} // verus!
