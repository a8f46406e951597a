//! Movement: how positions advance with time, where the window ends, and how
//! a projectile is pointed at a target.

use vstd::prelude::*;
use crate::aim::div_toward_zero;
use crate::collision::clamp;
use crate::geometry::{floor_sqrt, isqrt, Vec2D};
use crate::states::GameConfig;

verus! {

/// Microseconds in a second.
pub const SECOND: i64 = 1_000_000;

/// The way covered at `velocity` in `delta` microseconds, fractions cut off.
pub open spec fn displacement(velocity: int, delta: int) -> int {
    div_toward_zero(velocity * delta, SECOND as int)
}

/// A coordinate after `delta` microseconds at `velocity`, kept within the range of coordinates.
pub open spec fn advanced_by(coordinate: int, velocity: int, delta: int) -> int {
    clamp(coordinate + displacement(velocity, delta), i32::MIN as int, i32::MAX as int)
}

/// A position after `delta` microseconds at `velocity`.
pub open spec fn advanced(position: Vec2D, velocity: Vec2D, delta: int) -> Vec2D {
    Vec2D {
        x: advanced_by(position.x as int, velocity.x as int, delta) as i32,
        y: advanced_by(position.y as int, velocity.y as int, delta) as i32,
    }
}

/// A coordinate after `delta` microseconds at `velocity`.
pub fn advance_coordinate(coordinate: i32, velocity: i64, delta: u32) -> (moved: i32)
    ensures
        moved == advanced_by(coordinate as int, velocity as int, delta as int),
{
    let magnitude: i128 = if velocity >= 0 {
        velocity as i128
    } else {
        -(velocity as i128)
    };
    assert(0 <= magnitude * delta <= 0x8000_0000_0000_0000 * 0xffff_ffff) by (nonlinear_arith)
        requires
            0 <= magnitude <= 0x8000_0000_0000_0000,
            0 <= delta <= 0xffff_ffff,
    ;
    let way: i128 = magnitude * (delta as i128) / 1_000_000;
    proof {
        if velocity >= 0 {
            assert(velocity * delta >= 0) by (nonlinear_arith)
                requires
                    velocity >= 0,
                    delta >= 0,
            ;
        } else {
            assert(velocity * delta == -(magnitude * delta)) by (nonlinear_arith)
                requires
                    magnitude == -velocity,
            ;
            if delta == 0 {
                assert(velocity * delta == 0) by (nonlinear_arith)
                    requires
                        delta == 0,
                ;
            } else {
                assert(velocity * delta < 0) by (nonlinear_arith)
                    requires
                        velocity < 0,
                        delta > 0,
                ;
            }
        }
    }
    let target: i128 = if velocity >= 0 {
        coordinate as i128 + way
    } else {
        coordinate as i128 - way
    };
    if target < i32::MIN as i128 {
        i32::MIN
    } else if target > i32::MAX as i128 {
        i32::MAX
    } else {
        target as i32
    }
}

/// A position after `delta` microseconds at `velocity`.
pub fn advance(position: Vec2D, velocity: Vec2D, delta: u32) -> (moved: Vec2D)
    ensures
        moved == advanced(position, velocity, delta as int),
{
    Vec2D {
        x: advance_coordinate(position.x, velocity.x as i64, delta),
        y: advance_coordinate(position.y, velocity.y as i64, delta),
    }
}

/// Whether `position` lies more than `margin` outside the window.
pub open spec fn outside(config: GameConfig, position: Vec2D, margin: int) -> bool {
    let half_width = config.window_width / 2 + margin;
    let half_height = config.window_height / 2 + margin;
    position.x < -half_width || position.x > half_width || position.y < -half_height || position.y > half_height
}

/// Whether `position` lies more than `margin` outside the window.
pub fn out_of_bounds(config: &GameConfig, position: Vec2D, margin: u32) -> (out: bool)
    ensures
        out == outside(*config, position, margin as int),
{
    let half_width = (config.window_width / 2) as i64 + margin as i64;
    let half_height = (config.window_height / 2) as i64 + margin as i64;
    let x = position.x as i64;
    let y = position.y as i64;
    x < -half_width || x > half_width || y < -half_height || y > half_height
}

/// Whether an enemy has left the window for good: it is more than 100 pixels below the lower edge.
pub fn enemy_offscreen(config: &GameConfig, position: Vec2D) -> (gone: bool)
    ensures
        gone == (position.y < -(config.window_height / 2) - 100_000),
{
    (position.y as i64) < -((config.window_height / 2) as i64) - 100_000
}

/// Largest coordinate, to either side, of the points that `aim_at` takes.
pub const AIM_LIMIT: i32 = 1_000_000_000;

/// The rounded-down length of a vector.
pub open spec fn length_of(v: Vec2D) -> int {
    floor_sqrt(v.norm_sq())
}

/// The velocity of length `speed` in the direction of `delta`, each component
/// cut off towards zero; zero where `delta` is zero.
pub open spec fn scaled_to(delta: Vec2D, speed: int) -> Vec2D {
    if delta.x == 0 && delta.y == 0 {
        Vec2D { x: 0, y: 0 }
    } else {
        Vec2D {
            x: div_toward_zero(delta.x * speed, length_of(delta)) as i32,
            y: div_toward_zero(delta.y * speed, length_of(delta)) as i32,
        }
    }
}

fn scale_component(component: i32, speed: u32, length: u32) -> (scaled: i32)
    requires
        length > 0,
        -(length as int) <= component <= length,
        speed <= i32::MAX,
    ensures
        scaled == div_toward_zero(component * speed, length as int),
        -(speed as int) <= scaled <= speed,
{
    let magnitude: i64 = if component >= 0 {
        component as i64
    } else {
        -(component as i64)
    };
    assert(0 <= magnitude * speed <= length * speed) by (nonlinear_arith)
        requires
            0 <= magnitude <= length,
            0 <= speed,
    ;
    assert(length * speed <= 0xffff_ffff * 0x7fff_ffff) by (nonlinear_arith)
        requires
            0 <= length <= 0xffff_ffff,
            0 <= speed <= 0x7fff_ffff,
    ;
    let part: i64 = magnitude * (speed as i64) / (length as i64);
    assert(0 <= part <= speed) by (nonlinear_arith)
        requires
            part == (magnitude * speed) / (length as int),
            0 <= magnitude * speed <= length * speed,
            length > 0,
    ;
    proof {
        if component >= 0 {
            assert(component * speed >= 0) by (nonlinear_arith)
                requires
                    component >= 0,
                    speed >= 0,
            ;
        } else {
            assert(component * speed == -(magnitude * speed)) by (nonlinear_arith)
                requires
                    magnitude == -component,
            ;
            if speed == 0 {
                assert(component * speed == 0) by (nonlinear_arith)
                    requires
                        speed == 0,
                ;
            } else {
                assert(component * speed < 0) by (nonlinear_arith)
                    requires
                        component < 0,
                        speed > 0,
                ;
            }
        }
    }
    if component >= 0 {
        part as i32
    } else {
        (-part) as i32
    }
}

/// The velocity of length `speed` in the direction of `delta`.
pub fn scale_to(delta: Vec2D, speed: u32) -> (velocity: Vec2D)
    requires
        speed <= i32::MAX,
        i32::MIN < delta.x,
        i32::MIN < delta.y,
    ensures
        velocity == scaled_to(delta, speed as int),
{
    if delta.x == 0 && delta.y == 0 {
        return Vec2D { x: 0, y: 0 };
    }
    let norm = delta.length_squared();
    let length = isqrt(norm);
    proof {
        let l = length as int;
        if l == 0 {
            assert(delta.x * delta.x >= 1 || delta.y * delta.y >= 1) by (nonlinear_arith)
                requires
                    delta.x != 0 || delta.y != 0,
            ;
            assert(delta.x * delta.x >= 0 && delta.y * delta.y >= 0) by (nonlinear_arith);
        }
        assert(delta.x * delta.x >= 0 && delta.y * delta.y >= 0) by (nonlinear_arith);
        if delta.x > l || -delta.x > l {
            assert(delta.x * delta.x >= (l + 1) * (l + 1)) by (nonlinear_arith)
                requires
                    delta.x >= l + 1 || -delta.x >= l + 1,
                    l >= 0,
            ;
        }
        if delta.y > l || -delta.y > l {
            assert(delta.y * delta.y >= (l + 1) * (l + 1)) by (nonlinear_arith)
                requires
                    delta.y >= l + 1 || -delta.y >= l + 1,
                    l >= 0,
            ;
        }
    }
    Vec2D { x: scale_component(delta.x, speed, length), y: scale_component(delta.y, speed, length) }
}

/// The velocity of length `speed` that leads from `from` towards `to`; zero where the two coincide.
pub open spec fn aimed(from: Vec2D, to: Vec2D, speed: int) -> Vec2D {
    scaled_to(Vec2D { x: (to.x - from.x) as i32, y: (to.y - from.y) as i32 }, speed)
}

/// Whether both coordinates of `position` are within `AIM_LIMIT` of zero.
pub open spec fn within_aim(position: Vec2D) -> bool {
    -AIM_LIMIT <= position.x <= AIM_LIMIT && -AIM_LIMIT <= position.y <= AIM_LIMIT
}

/// The velocity of length `speed` that leads from `from` towards `to`.
pub fn aim_at(from: Vec2D, to: Vec2D, speed: u32) -> (velocity: Vec2D)
    requires
        speed <= i32::MAX,
        within_aim(from),
        within_aim(to),
    ensures
        velocity == aimed(from, to, speed as int),
{
    scale_to(Vec2D { x: to.x - from.x, y: to.y - from.y }, speed)
}

/// No component of an aimed velocity exceeds the speed.
pub proof fn lemma_aimed_bounded(delta: Vec2D, speed: int)
    requires
        0 <= speed <= i32::MAX,
    ensures
        -speed <= scaled_to(delta, speed).x <= speed,
        -speed <= scaled_to(delta, speed).y <= speed,
{
    if !(delta.x == 0 && delta.y == 0) {
        let n = delta.norm_sq();
        assert(delta.x * delta.x >= 0 && delta.y * delta.y >= 0) by (nonlinear_arith);
        crate::geometry::lemma_floor_sqrt_exists(n);
        let l = floor_sqrt(n);
        if l == 0 {
            assert(delta.x * delta.x >= 1 || delta.y * delta.y >= 1) by (nonlinear_arith)
                requires
                    delta.x != 0 || delta.y != 0,
            ;
        }
        lemma_component_bounded(delta.x as int, speed, l, n - delta.x * delta.x);
        lemma_component_bounded(delta.y as int, speed, l, n - delta.y * delta.y);
    }
}

proof fn lemma_component_bounded(c: int, speed: int, l: int, rest: int)
    requires
        l > 0,
        rest >= 0,
        speed >= 0,
        c * c + rest < (l + 1) * (l + 1),
    ensures
        -speed <= div_toward_zero(c * speed, l) <= speed,
{
    if c > l || -c > l {
        assert(c * c >= (l + 1) * (l + 1)) by (nonlinear_arith)
            requires
                c >= l + 1 || -c >= l + 1,
                l >= 0,
        ;
    }
    if c >= 0 {
        assert(0 <= c * speed <= l * speed) by (nonlinear_arith)
            requires
                0 <= c <= l,
                speed >= 0,
        ;
        assert((c * speed) / l <= speed && (c * speed) / l >= 0) by (nonlinear_arith)
            requires
                0 <= c * speed <= l * speed,
                l > 0,
        ;
    } else {
        let m = -(c * speed);
        assert(0 <= m <= l * speed) by (nonlinear_arith)
            requires
                m == -(c * speed),
                -l <= c < 0,
                speed >= 0,
        ;
        assert(m / l <= speed && m / l >= 0) by (nonlinear_arith)
            requires
                0 <= m <= l * speed,
                l > 0,
        ;
    }
}

} // verus!
