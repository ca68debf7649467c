//! Enemies: they appear in the middle of an edge of the playfield and walk
//! straight across it.

use macroquad::rand::ChooseRandom;
use vstd::prelude::*;

use crate::animation::{Animation, AnimationView};
use crate::character::Character;
use crate::direction::Direction;
use crate::rect::Rect;
use crate::resources::Animations;
use crate::timers::Seconds;
use crate::{ENEMY_SPEED, GAME_HEIGHT, GAME_WIDTH};

verus! {

/// What an [`Enemy`] is at a given moment.
pub struct EnemyView {
    pub character: Character,
    pub animation: AnimationView,
    pub alive: bool,
}

impl EnemyView {
    /// The walk is a well-formed repeating animation.
    pub open spec fn wf(self) -> bool {
        self.animation.wf() && self.animation.repeating
    }

    /// The enemy after walking for `time`, its walk ticked at `now`.
    pub open spec fn moved(self, time: Seconds, now: Seconds) -> EnemyView {
        EnemyView {
            character: self.character.moved(ENEMY_SPEED, time),
            animation: self.animation.ticked(now),
            alive: self.alive,
        }
    }
}

/// Where an enemy walking in direction `d` appears: the middle of the edge it
/// walks away from.
pub open spec fn spawn_point(d: Direction) -> (int, int) {
    match d {
        Direction::Down => (GAME_WIDTH / 2, 0),
        Direction::Up => (GAME_WIDTH / 2, GAME_HEIGHT as int),
        Direction::Left => (GAME_WIDTH as int, GAME_HEIGHT / 2),
        Direction::Right => (0, GAME_HEIGHT / 2),
    }
}

/// An enemy of size `w` by `h` walking in direction `d`, appeared at `now`.
pub open spec fn spawned(
    d: Direction,
    w: u32,
    h: u32,
    animations: Animations,
    now: Seconds,
) -> EnemyView {
    EnemyView {
        character: Character {
            body: Rect {
                x: (spawn_point(d).0 - w / 2) as i64,
                y: (spawn_point(d).1 - h / 2) as i64,
                w,
                h,
            },
            direction: d,
        },
        animation: animations.walking(d, now),
        alive: true,
    }
}

/// Relies on `macroquad::rand::ChooseRandom::choose` (from quad-rand): on a
/// non-empty slice it returns a reference to the element at an index drawn
/// below the length, on an empty one `None`. The index is drawn through an
/// `f64`, exact for lengths that fit in a `u32`.
#[verifier::external_body]
fn choose_direction(directions: &Vec<Direction>) -> (r: Option<Direction>)
    requires
        directions@.len() <= u32::MAX,
    ensures
        r is Some <==> directions@.len() > 0,
        r is Some ==> directions@.contains(r->0),
{
    directions.choose().copied()
}

/// One of the four directions, picked at random.
pub(crate) fn random_direction() -> (r: Direction)
    ensures
        Direction::all().contains(r),
{
    let directions = Direction::iter();
    match choose_direction(&directions) {
        Some(d) => d,
        None => Direction::Down,
    }
}

/// An enemy walking across the playfield.
pub struct Enemy {
    pub character: Character,
    pub animation: Animation,
    pub alive: bool,
}

impl View for Enemy {
    type V = EnemyView;

    open spec fn view(&self) -> EnemyView {
        EnemyView { character: self.character, animation: self.animation@, alive: self.alive }
    }
}

impl Enemy {
    /// Creates an enemy of size `w` by `h` in the middle of the edge opposite
    /// to `direction`, walking in `direction` from `now`.
    pub fn spawn(direction: Direction, w: u32, h: u32, animations: &Animations, now: Seconds) -> (r:
        Enemy)
        ensures
            r@ == spawned(direction, w, h, *animations, now),
            r@.wf(),
    {
        let (x, y): (i64, i64) = match direction {
            Direction::Down => (GAME_WIDTH / 2, 0),
            Direction::Up => (GAME_WIDTH / 2, GAME_HEIGHT),
            Direction::Left => (GAME_WIDTH, GAME_HEIGHT / 2),
            Direction::Right => (0, GAME_HEIGHT / 2),
        };
        Enemy {
            character: Character::new(x, y, w, h, direction),
            animation: animations.enemy_walking(direction, now),
            alive: true,
        }
    }

    /// Creates an enemy placed on a side of the playfield picked at random,
    /// walking inward.
    pub fn new_random(w: u32, h: u32, animations: &Animations, now: Seconds) -> (r: Enemy)
        ensures
            r@ == spawned(r@.character.direction, w, h, *animations, now),
            r@.wf(),
    {
        Enemy::spawn(random_direction(), w, h, animations, now)
    }

    /// Moves the enemy along its direction for `time` and updates its walk at `now`.
    pub fn move_and_animate(&mut self, time: Seconds, now: Seconds)
        requires
            old(self)@.wf(),
        ensures
            final(self)@ == old(self)@.moved(time, now),
            final(self)@.wf(),
    {
        self.character.move_body(ENEMY_SPEED, time);
        self.animation.tick(now);
    }

    /// Tile of the enemy sprite sheet to draw.
    pub fn current_tile(&self) -> (r: usize)
        requires
            self@.wf(),
        ensures
            r == self@.animation.tiles[self@.animation.current_frame as int],
    {
        self.animation.current_tile()
    }
}

} // verus!
