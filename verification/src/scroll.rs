//! The scrolling of the world: everything that scrolls drifts down the window.

use vstd::prelude::*;
use crate::motion::{advance_coordinate, advanced_by};
use crate::states::GameConfig;

verus! {

/// How far the world has scrolled.
#[derive(Clone, Copy, PartialEq, Eq, Structural, Debug)]
pub struct ScrollState {
    pub offset: u64,
    pub total_distance: u64,
}

impl Default for ScrollState {
    fn default() -> (state: ScrollState)
        ensures
            state == (ScrollState { offset: 0, total_distance: 0 }),
    {
        ScrollState { offset: 0, total_distance: 0 }
    }
}

/// Marks what scrolls with the world. The multiplier is in thousandths.
#[derive(Clone, Copy, PartialEq, Eq, Structural, Debug)]
pub struct Scrollable {
    pub moves_with_scroll: bool,
    pub speed_multiplier: u32,
}

impl Default for Scrollable {
    fn default() -> (scrollable: Scrollable)
        ensures
            scrollable == (Scrollable { moves_with_scroll: true, speed_multiplier: 1000 }),
    {
        Scrollable { moves_with_scroll: true, speed_multiplier: 1000 }
    }
}

/// A layer of the background. The parallax factor is in thousandths: 0 stands still, 1000 scrolls fully.
#[derive(Clone, Copy, PartialEq, Eq, Structural, Debug)]
pub struct BackgroundLayer {
    pub parallax_factor: u32,
    pub layer: i32,
}

/// Distance between two lines of the background grid.
pub const GRID_SIZE: u32 = 50_000;

/// The way that the world scrolls in `delta` microseconds.
pub open spec fn scrolled(config: GameConfig, delta: int) -> int {
    config.scroll_speed * delta / 1_000_000
}

/// The speed at which something scrolls that takes `share` thousandths of the world's scrolling.
pub open spec fn scroll_velocity(config: GameConfig, share: int) -> int {
    config.scroll_speed * share / 1000
}

fn scroll_speed_of(config: &GameConfig, share: u32) -> (speed: i64)
    ensures
        speed == scroll_velocity(*config, share as int),
        0 <= speed <= 0xffff_ffff * 0xffff_ffff,
{
    assert(config.scroll_speed * share <= 0xffff_ffff * 0xffff_ffff) by (nonlinear_arith)
        requires
            0 <= config.scroll_speed <= 0xffff_ffff,
            0 <= share <= 0xffff_ffff,
    ;
    (config.scroll_speed as u64 * share as u64 / 1000) as i64
}

/// Lets the world scroll for one frame.
pub fn update_scroll(state: &mut ScrollState, config: &GameConfig, delta: u32)
    requires
        old(state).offset + scrolled(*config, delta as int) <= u64::MAX,
        old(state).total_distance + scrolled(*config, delta as int) <= u64::MAX,
    ensures
        final(state).offset == old(state).offset + scrolled(*config, delta as int),
        final(state).total_distance == old(state).total_distance + scrolled(*config, delta as int),
{
    assert(config.scroll_speed * delta <= 0xffff_ffff * 0xffff_ffff) by (nonlinear_arith)
        requires
            0 <= config.scroll_speed <= 0xffff_ffff,
            0 <= delta <= 0xffff_ffff,
    ;
    let way = config.scroll_speed as u64 * delta as u64 / 1_000_000;
    state.offset += way;
    state.total_distance += way;
}

/// The height of something that scrolls, after a frame: it drifts down at its share of the world's speed.
pub open spec fn drifted(y: int, scrollable: Scrollable, config: GameConfig, delta: int) -> int {
    if scrollable.moves_with_scroll {
        advanced_by(y, -scroll_velocity(config, scrollable.speed_multiplier as int), delta)
    } else {
        y
    }
}

/// Moves something that scrolls for one frame.
pub fn update_scrollable(y: i32, scrollable: &Scrollable, config: &GameConfig, delta: u32) -> (moved: i32)
    ensures
        moved == drifted(y as int, *scrollable, *config, delta as int),
{
    if scrollable.moves_with_scroll {
        let speed = scroll_speed_of(config, scrollable.speed_multiplier);
        advance_coordinate(y, -speed, delta)
    } else {
        y
    }
}

/// The height of a background layer after a frame: it drifts down at its
/// parallax share, and starts over two window heights up once it is a whole
/// window height below the middle.
pub open spec fn background_after(y: int, layer: BackgroundLayer, config: GameConfig, delta: int) -> int {
    let drifted = advanced_by(y, -scroll_velocity(config, layer.parallax_factor as int), delta);
    if drifted < -(config.window_height as int) {
        drifted + 2 * config.window_height
    } else {
        drifted
    }
}

/// Moves a background layer for one frame.
pub fn update_background_scroll(y: i32, layer: &BackgroundLayer, config: &GameConfig, delta: u32) -> (moved: i32)
    ensures
        moved == background_after(y as int, *layer, *config, delta as int),
{
    let speed = scroll_speed_of(config, layer.parallax_factor);
    let drifted = advance_coordinate(y, -speed, delta);
    if (drifted as i64) < -(config.window_height as i64) {
        (drifted as i64 + 2 * config.window_height as i64) as i32
    } else {
        drifted
    }
}

/// The lines of the background grid: `2 * count + 1` of them, `GRID_SIZE` apart, centred on zero.
pub open spec fn grid_lines(count: int) -> Seq<i32> {
    Seq::new((2 * count + 1) as nat, |k: int| ((k - count) * GRID_SIZE) as i32)
}

/// The background grid: where its lines lie.
#[derive(Debug)]
pub struct BackgroundGrid {
    /// Heights of the horizontal lines; each is as wide as the window.
    pub horizontal: Vec<i32>,
    /// Places of the vertical lines; each is three windows high.
    pub vertical: Vec<i32>,
}

fn lines(count: u32) -> (places: Vec<i32>)
    requires
        count <= 30_000,
    ensures
        places@ == grid_lines(count as int),
{
    let mut places: Vec<i32> = Vec::new();
    let total = 2 * count + 1;
    let mut k: u32 = 0;
    while k < total
        invariant
            k <= total,
            total == 2 * count + 1,
            count <= 30_000,
            places@ == Seq::new(k as nat, |m: int| ((m - count) * GRID_SIZE) as i32),
        decreases total - k,
    {
        let steps: i64 = k as i64 - count as i64;
        assert(-1_500_000_000 <= steps * GRID_SIZE <= 1_500_000_000) by (nonlinear_arith)
            requires
                -30_000 <= steps <= 30_000,
                GRID_SIZE == 50_000,
        ;
        places.push((steps * GRID_SIZE as i64) as i32);
        k = k + 1;
        assert(places@ =~= Seq::new(k as nat, |m: int| ((m - count) * GRID_SIZE) as i32));
    }
    places
}

/// Lays out the background grid: horizontal lines over three window heights
/// to either side of the middle, vertical lines over the window's width to either side.
pub fn spawn_background_grid(config: &GameConfig) -> (grid: BackgroundGrid)
    requires
        config.wf(),
    ensures
        grid.horizontal@ == grid_lines(config.window_height as int * 3 / (GRID_SIZE as int)),
        grid.vertical@ == grid_lines(config.window_width as int / (GRID_SIZE as int)),
{
    let h_lines = (config.window_height as u64 * 3 / GRID_SIZE as u64) as u32;
    let v_lines = config.window_width / GRID_SIZE;
    BackgroundGrid { horizontal: lines(h_lines), vertical: lines(v_lines) }
}

} // verus!
