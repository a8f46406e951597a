//! Simulation core of a vertical-scrolling arcade shooter.
//!
//! The crate holds the rules of the game as plain functions over plain values:
//! collision detection, combat resolution, weapon and boss volleys, the spawn
//! director and the progression curve. Every function carries a contract that
//! the verifier proves; only the draws of chance, in `random`, are taken on
//! trust from the `rand` crate.
//!
//! All quantities are integers:
//!
//! * lengths and coordinates are in thousandths of a pixel,
//! * times are in microseconds,
//! * speeds are in length units per second,
//! * angles are in thousandths of a degree, counter-clockwise from the +X axis,
//! * scale factors are in percent.
//!
//! A host engine owns the entities; it hands their data to these functions and
//! applies what they return.

pub mod aim;
pub mod arsenal;
pub mod behavior;
pub mod blueprints;
pub mod boss;
pub mod boss_combat;
pub mod collision;
pub mod combat;
pub mod enemy;
pub mod firing;
pub mod flight;
pub mod geometry;
pub mod hud;
pub mod lightning;
pub mod motion;
pub mod player;
pub mod progression;
pub mod projectiles;
mod random;
pub mod recharge;
pub mod scroll;
pub mod shield;
pub mod states;
pub mod strikes;
pub mod volleys;
pub mod weapons;

