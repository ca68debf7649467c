//! The animations of the game's sprite sheets: enemies walking, and the
//! player's sword attack, in each direction.

use vstd::prelude::*;

use crate::animation::{Animation, AnimationView};
use crate::direction::Direction;
use crate::player::{range_seq, AttackAnimation};
use crate::timers::{Seconds, Timer};

verus! {

/// Duration of a frame of an enemy's walk, in milliseconds.
pub const WALKING_FRAME_MILLIS: u64 = 100;

/// Duration of a frame of the player's attack, in milliseconds.
pub const ATTACK_FRAME_MILLIS: u64 = 50;

/// Frame durations of the game's animations.
#[derive(Clone, Copy, PartialEq, Eq, Structural, Debug)]
pub struct Animations {
    pub walking_frame: Seconds,
    pub attack_frame: Seconds,
}

/// Tiles of the enemy sprite sheet for a walk in direction `d`: three poses
/// and back to the middle one.
pub open spec fn walking_tiles(d: Direction) -> Seq<usize> {
    match d {
        Direction::Down => seq![0, 1, 2, 1],
        Direction::Left => seq![3, 4, 5, 4],
        Direction::Right => seq![6, 7, 8, 7],
        Direction::Up => seq![9, 10, 11, 10],
    }
}

/// First tile of the player sprite sheet's four attack frames in direction `d`.
pub open spec fn attack_start(d: Direction) -> usize {
    match d {
        Direction::Up => 4,
        Direction::Right => 8,
        Direction::Left => 12,
        Direction::Down => 16,
    }
}

impl Animations {
    /// A walk in direction `d` started at `now`.
    pub open spec fn walking(self, d: Direction, now: Seconds) -> AnimationView {
        AnimationView {
            tiles: walking_tiles(d),
            current_frame: 0,
            timer: Timer { time: now, delay: self.walking_frame },
            repeating: true,
        }
    }

    /// An attack in direction `d` started at `now`.
    pub open spec fn attacking(self, d: Direction, now: Seconds) -> AnimationView {
        AnimationView {
            tiles: range_seq(attack_start(d), (attack_start(d) + 4) as usize),
            current_frame: 0,
            timer: Timer { time: now, delay: self.attack_frame },
            repeating: false,
        }
    }

    pub fn new() -> (r: Animations)
        ensures
            r.walking_frame.millis == WALKING_FRAME_MILLIS,
            r.attack_frame.millis == ATTACK_FRAME_MILLIS,
    {
        Animations {
            walking_frame: Seconds::from_millis(WALKING_FRAME_MILLIS),
            attack_frame: Seconds::from_millis(ATTACK_FRAME_MILLIS),
        }
    }

    /// Returns an enemy walking animation for the given direction, started at `now`.
    pub fn enemy_walking(&self, direction: Direction, now: Seconds) -> (r: Animation)
        ensures
            r@ == self.walking(direction, now),
            r@.wf(),
    {
        let tiles: Vec<usize> = match direction {
            Direction::Down => vec![0, 1, 2, 1],
            Direction::Left => vec![3, 4, 5, 4],
            Direction::Right => vec![6, 7, 8, 7],
            Direction::Up => vec![9, 10, 11, 10],
        };
        assert(tiles@ =~= walking_tiles(direction));
        Animation::new(tiles, self.walking_frame, true, now)
    }

    /// Returns a player attack animation for the given side, started at `now`.
    pub fn attack(&self, side: Direction, now: Seconds) -> (r: AttackAnimation)
        ensures
            r.0@ == self.attacking(side, now),
            r.0@.wf(),
    {
        let indexes = match side {
            Direction::Up => 4..8,
            Direction::Right => 8..12,
            Direction::Left => 12..16,
            Direction::Down => 16..20,
        };
        AttackAnimation::new(indexes, self.attack_frame, now)
    }
}

} // verus!
