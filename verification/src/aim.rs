//! Directions of volleys. Angles are in thousandths of a degree,
//! counter-clockwise from the +X axis; straight up is 90 000.

use vstd::prelude::*;
use crate::geometry::Vec2D;

verus! {

/// A right angle.
pub const QUARTER_TURN: i32 = 90_000;

/// A full turn.
pub const FULL_TURN: i32 = 360_000;

/// `a / b` rounded towards zero, for a positive `b`.
pub open spec fn div_toward_zero(a: int, b: int) -> int {
    if a >= 0 {
        a / b
    } else {
        -((-a) / b)
    }
}

/// Direction of shot `i` of a fan of `count` shots that opens by `half_spread`
/// to either side of `center`: the shots divide the fan evenly, the first on
/// one edge and the last on the other. Fractions are cut off towards the centre.
pub open spec fn fan_angle(center: int, half_spread: int, count: int, i: int) -> int {
    center + div_toward_zero(half_spread * (2 * i - (count - 1)), count - 1)
}

/// Direction of shot `i` of a ring of `count` shots that starts at `start`.
pub open spec fn ring_angle(start: int, count: int, i: int) -> int {
    start + FULL_TURN * i / count
}

/// Sideways place of item `i` in a row of `count` items centred on zero, with
/// `half_step` being half the distance between neighbours.
pub open spec fn row_offset(half_step: int, count: int, i: int) -> int {
    half_step * (2 * i - (count - 1))
}

/// Direction of shot `i` of a fan.
pub fn fan_direction(center: i32, half_spread: u32, count: u32, i: u32) -> (angle: i32)
    requires
        -FULL_TURN <= center <= FULL_TURN,
        half_spread <= FULL_TURN,
        2 <= count <= 1000,
        i < count,
    ensures
        angle == fan_angle(center as int, half_spread as int, count as int, i as int),
        center - half_spread <= angle <= center + half_spread,
{
    let steps: i64 = 2 * (i as i64) - (count as i64 - 1);
    let span: i64 = count as i64 - 1;
    let magnitude: i64 = if steps >= 0 {
        steps
    } else {
        -steps
    };
    assert(0 <= half_spread * magnitude <= half_spread * span <= 360_000 * 1000) by (nonlinear_arith)
        requires
            0 <= magnitude <= span <= 1000,
            0 <= half_spread <= 360_000,
    ;
    let part: i64 = (half_spread as i64 * magnitude) / span;
    assert(part <= half_spread) by (nonlinear_arith)
        requires
            part == (half_spread * magnitude) / (span as int),
            0 <= half_spread * magnitude <= half_spread * span,
            span > 0,
    ;
    proof {
        if steps >= 0 {
            assert(half_spread * steps >= 0) by (nonlinear_arith)
                requires
                    steps >= 0,
                    half_spread >= 0,
            ;
        } else {
            assert(half_spread * steps == -(half_spread * magnitude)) by (nonlinear_arith)
                requires
                    magnitude == -steps,
            ;
            if half_spread == 0 {
                assert(half_spread * steps == 0) by (nonlinear_arith)
                    requires
                        half_spread == 0,
                ;
            } else {
                assert(half_spread * steps < 0) by (nonlinear_arith)
                    requires
                        steps < 0,
                        half_spread > 0,
                ;
            }
        }
    }
    if steps >= 0 {
        (center as i64 + part) as i32
    } else {
        (center as i64 - part) as i32
    }
}

/// Direction of shot `i` of a ring.
pub fn ring_direction(start: i32, count: u32, i: u32) -> (angle: i32)
    requires
        -FULL_TURN <= start <= FULL_TURN,
        0 < count,
        i < count,
    ensures
        angle == ring_angle(start as int, count as int, i as int),
        start <= angle < start + FULL_TURN,
{
    let part: i64 = 360_000 * (i as i64) / (count as i64);
    assert(part < 360_000) by (nonlinear_arith)
        requires
            part == 360_000 * i / (count as int),
            0 <= i < count,
    ;
    (start as i64 + part) as i32
}

/// Sideways place of item `i` in a centred row.
pub fn row_position(half_step: u32, count: u32, i: u32) -> (offset: i32)
    requires
        half_step <= 1_000_000,
        1 <= count <= 1000,
        i < count,
    ensures
        offset == row_offset(half_step as int, count as int, i as int),
{
    let steps: i64 = 2 * (i as i64) - (count as i64 - 1);
    assert(-1_000_000_000 <= half_step * steps <= 1_000_000_000) by (nonlinear_arith)
        requires
            -1000 <= steps <= 1000,
            0 <= half_step <= 1_000_000,
    ;
    (half_step as i64 * steps) as i32
}

/// A fan is symmetric about its centre: the shot `i` and the shot `i` from the
/// other end point equally far to either side of it.
pub proof fn lemma_fan_symmetric(center: int, half_spread: int, count: int, i: int)
    requires
        count >= 2,
        0 <= i < count,
    ensures
        fan_angle(center, half_spread, count, i) - center == center - fan_angle(
            center,
            half_spread,
            count,
            count - 1 - i,
        ),
{
    let a = 2 * i - (count - 1);
    let b = 2 * (count - 1 - i) - (count - 1);
    assert(b == -a);
    assert(half_spread * b == -(half_spread * a)) by (nonlinear_arith)
        requires
            b == -a,
    ;
}

/// Every shot of a fan lies within the fan, and the two outermost shots lie on its edges.
pub proof fn lemma_fan_within(center: int, half_spread: int, count: int, i: int)
    requires
        count >= 2,
        0 <= i < count,
        half_spread >= 0,
    ensures
        center - half_spread <= fan_angle(center, half_spread, count, i) <= center + half_spread,
        fan_angle(center, half_spread, count, 0) == center - half_spread,
        fan_angle(center, half_spread, count, count - 1) == center + half_spread,
{
    let span = count - 1;
    let steps = 2 * i - span;
    assert(-span <= steps <= span);
    if steps >= 0 {
        assert(0 <= half_spread * steps <= half_spread * span) by (nonlinear_arith)
            requires
                0 <= steps <= span,
                half_spread >= 0,
        ;
        assert((half_spread * steps) / span <= half_spread) by (nonlinear_arith)
            requires
                0 <= half_spread * steps <= half_spread * span,
                span > 0,
        ;
        assert((half_spread * steps) / span >= 0) by (nonlinear_arith)
            requires
                0 <= half_spread * steps,
                span > 0,
        ;
    } else {
        assert(0 <= -(half_spread * steps) <= half_spread * span) by (nonlinear_arith)
            requires
                -span <= steps < 0,
                half_spread >= 0,
        ;
        let m = -(half_spread * steps);
        assert(0 <= m / span <= half_spread) by (nonlinear_arith)
            requires
                0 <= m <= half_spread * span,
                span > 0,
        ;
        if half_spread * steps >= 0 {
            assert(half_spread * steps == 0);
        }
    }
    assert((half_spread * span) / span == half_spread) by (nonlinear_arith)
        requires
            span > 0,
    ;
    assert(half_spread * (2 * 0 - span) == -(half_spread * span)) by (nonlinear_arith);
    assert(half_spread * (2 * (count - 1) - span) == half_spread * span) by (nonlinear_arith)
        requires
            span == count - 1,
    ;
    assert(half_spread * span >= 0) by (nonlinear_arith)
        requires
            span > 0,
            half_spread >= 0,
    ;
}

/// The velocity of a shot along an axis: for a direction that is a whole
/// number of quarter turns, the speed along that axis; for any other, nothing.
pub open spec fn axis_velocity_of(heading: int, speed: int) -> Option<Vec2D> {
    let turned = heading % (FULL_TURN as int);
    if turned == 0 {
        Some(Vec2D { x: speed as i32, y: 0 })
    } else if turned == 90_000 {
        Some(Vec2D { x: 0, y: speed as i32 })
    } else if turned == 180_000 {
        Some(Vec2D { x: (-speed) as i32, y: 0 })
    } else if turned == 270_000 {
        Some(Vec2D { x: 0, y: (-speed) as i32 })
    } else {
        None
    }
}

/// The velocity of a shot along an axis.
pub fn axis_velocity(heading: i32, speed: u32) -> (velocity: Option<Vec2D>)
    requires
        speed <= i32::MAX,
    ensures
        velocity == axis_velocity_of(heading as int, speed as int),
{
    let turned = (heading as i64 + 6000 * 360_000) % 360_000;
    let s = speed as i32;
    if turned == 0 {
        Some(Vec2D { x: s, y: 0 })
    } else if turned == 90_000 {
        Some(Vec2D { x: 0, y: s })
    } else if turned == 180_000 {
        Some(Vec2D { x: -s, y: 0 })
    } else if turned == 270_000 {
        Some(Vec2D { x: 0, y: -s })
    } else {
        None
    }
}

} // verus!
