//! A body on the playfield that faces a direction and can move along it.

use vstd::prelude::*;

use crate::direction::Direction;
use crate::rect::{clamp, saturate, Rect};
use crate::timers::Seconds;

verus! {

/// An axis-aligned hit-box and the direction it faces. Only the position and
/// the direction change after creation.
#[derive(Clone, Copy, PartialEq, Eq, Structural, Debug)]
pub struct Character {
    pub body: Rect,
    pub direction: Direction,
}

/// Distance covered at `speed` pixels per second during `time`, in playfield
/// units, capped at `i64::MAX`.
pub open spec fn distance(speed: u32, time: Seconds) -> int {
    if speed * time.millis > i64::MAX {
        i64::MAX as int
    } else {
        speed * time.millis
    }
}

impl Character {
    /// Whether the two characters' bodies overlap.
    pub open spec fn collides_with(self, other: Character) -> bool {
        self.body.overlaps_with(other.body)
    }

    /// The character after moving along its direction at `speed` for `time`.
    pub open spec fn moved(self, speed: u32, time: Seconds) -> Character {
        let d = distance(speed, time);
        Character {
            body: self.body.moved_by(self.direction.dx() * d, self.direction.dy() * d),
            direction: self.direction,
        }
    }

    /// Creates a character of size `w` by `h` whose body is centered on `(x, y)`.
    pub fn new(x: i64, y: i64, w: u32, h: u32, direction: Direction) -> (r: Character)
        ensures
            r.body == (Rect {
                x: clamp(x - w / 2) as i64,
                y: clamp(y - h / 2) as i64,
                w,
                h,
            }),
            r.direction == direction,
    {
        let body = Rect::new(
            saturate(x as i128 - (w / 2) as i128),
            saturate(y as i128 - (h / 2) as i128),
            w,
            h,
        );
        Character { body, direction }
    }

    /// Center of the body.
    pub fn position(&self) -> (r: (i64, i64))
        ensures
            r.0 == clamp(self.body.x + self.body.w / 2),
            r.1 == clamp(self.body.y + self.body.h / 2),
    {
        (
            saturate(self.body.x as i128 + (self.body.w / 2) as i128),
            saturate(self.body.y as i128 + (self.body.h / 2) as i128),
        )
    }

    /// Moves the body along the direction at `speed` pixels per second for
    /// `time`.
    pub fn move_body(&mut self, speed: u32, time: Seconds)
        ensures
            *final(self) == old(self).moved(speed, time),
    {
        assert(speed * time.millis <= u32::MAX * u64::MAX) by (nonlinear_arith)
            requires
                speed <= u32::MAX,
                time.millis <= u64::MAX,
        ;
        let product: u128 = speed as u128 * time.millis as u128;
        let d: i64 = if product > i64::MAX as u128 {
            i64::MAX
        } else {
            product as i64
        };
        let (dx, dy): (i64, i64) = match self.direction {
            Direction::Up => (0, -d),
            Direction::Right => (d, 0),
            Direction::Down => (0, d),
            Direction::Left => (-d, 0),
        };
        self.body = self.body.offset(dx, dy);
    }

    /// Returns true if both characters are in collision.
    pub fn collide(&self, other: &Character) -> (r: bool)
        ensures
            r == self.collides_with(*other),
    {
        self.body.overlaps(&other.body)
    }
}

/// Collision is symmetric: `a` collides with `b` exactly when `b` collides
/// with `a`.
pub proof fn lemma_collide_symmetric(a: Character, b: Character)
    ensures
        a.collides_with(b) == b.collides_with(a),
{
}

} // verus!
