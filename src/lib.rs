//! Game logic of a small arcade action game: a knight in the middle of a
//! fixed playfield fends off enemies walking in from the edges with a
//! directional sword attack, and loses a life each time one reaches them.
//!
//! Time is measured in [`timers::Seconds`], held in milliseconds. Positions
//! and sizes on the playfield are integers in thousandths of a pixel, so that
//! a speed in pixels per second moves a body by `speed` units per millisecond.

use vstd::prelude::*;

pub mod animation;
pub mod character;
pub mod direction;
pub mod enemy;
pub mod game;
pub mod life_bar;
pub mod player;
pub mod rect;
pub mod resources;
pub mod timers;

verus! {

/// Units of playfield length in one pixel.
pub const UNIT: i64 = 1000;

/// Width of the playfield.
pub const GAME_WIDTH: i64 = 250 * UNIT;

/// Height of the playfield.
pub const GAME_HEIGHT: i64 = 250 * UNIT;

/// Side of the square body of the player and of every enemy.
pub const CHARACTER_SIZE: u32 = 18000;

/// Movement speed of enemies, in pixels per second.
pub const ENEMY_SPEED: u32 = 40;

/// Delay between two enemy spawns when a session starts, in milliseconds.
pub const INITIAL_SPAWN_DELAY_MILLIS: u64 = 1000;

/// Duration of the cooldown between two attacks, in milliseconds.
pub const SLASH_COOLDOWN_MILLIS: u64 = 300;

/// Lives the player starts a session with.
pub const LIVES: u32 = 5;

/// Score gained for each enemy killed.
pub const KILL_SCORE: u32 = 10;

} // verus!
