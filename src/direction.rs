//! The four facing directions, with their unit vectors and sprite tiles.

use vstd::prelude::*;

verus! {

/// One of the four cardinal directions; the playfield's y axis points down.
#[derive(Clone, Copy, PartialEq, Eq, Structural, Debug)]
pub enum Direction {
    Up,
    Right,
    Down,
    Left,
}

/// Which directional keys are held during a frame.
#[derive(Clone, Copy, PartialEq, Eq, Structural, Debug)]
pub struct HeldKeys {
    pub up: bool,
    pub right: bool,
    pub down: bool,
    pub left: bool,
}

impl Direction {
    /// Every direction, in the order in which they are looked at.
    pub open spec fn all() -> Seq<Direction> {
        seq![Direction::Up, Direction::Right, Direction::Down, Direction::Left]
    }

    /// Horizontal component of the unit vector.
    pub open spec fn dx(self) -> int {
        match self {
            Direction::Right => 1,
            Direction::Left => -1,
            _ => 0,
        }
    }

    /// Vertical component of the unit vector.
    pub open spec fn dy(self) -> int {
        match self {
            Direction::Down => 1,
            Direction::Up => -1,
            _ => 0,
        }
    }

    /// Tile of the player's sprite sheet showing them idle, facing this way.
    pub open spec fn idle_tile(self) -> usize {
        match self {
            Direction::Up => 0,
            Direction::Right => 1,
            Direction::Down => 2,
            Direction::Left => 3,
        }
    }

    /// Every direction: up, right, down, left.
    pub fn iter() -> (r: Vec<Direction>)
        ensures
            r@ == Self::all(),
    {
        let r = vec![Direction::Up, Direction::Right, Direction::Down, Direction::Left];
        assert(r@ =~= Self::all());
        r
    }

    /// The unit vector of the direction, as `(x, y)`.
    pub fn vector(self) -> (r: (i64, i64))
        ensures
            r.0 == self.dx(),
            r.1 == self.dy(),
    {
        match self {
            Direction::Up => (0, -1),
            Direction::Right => (1, 0),
            Direction::Down => (0, 1),
            Direction::Left => (-1, 0),
        }
    }

    /// Tile of the player's sprite sheet showing them idle, facing this way.
    pub fn tile_index(self) -> (r: usize)
        ensures
            r == self.idle_tile(),
    {
        match self {
            Direction::Up => 0,
            Direction::Right => 1,
            Direction::Down => 2,
            Direction::Left => 3,
        }
    }
}

impl HeldKeys {
    /// Whether the key of direction `d` is held.
    pub open spec fn holds(self, d: Direction) -> bool {
        match d {
            Direction::Up => self.up,
            Direction::Right => self.right,
            Direction::Down => self.down,
            Direction::Left => self.left,
        }
    }

    /// The first direction, in the order of [`Direction::iter`], whose key is held.
    pub open spec fn first_held(self) -> Option<Direction> {
        if self.up {
            Some(Direction::Up)
        } else if self.right {
            Some(Direction::Right)
        } else if self.down {
            Some(Direction::Down)
        } else if self.left {
            Some(Direction::Left)
        } else {
            None
        }
    }

    /// The first direction, in the order of [`Direction::iter`], whose key is held.
    pub fn first(&self) -> (r: Option<Direction>)
        ensures
            r == self.first_held(),
            r matches Some(d) ==> self.holds(d),
            r is None <==> forall|d: Direction| !self.holds(d),
    {
        let dirs = Direction::iter();
        let mut i: usize = 0;
        while i < dirs.len()
            invariant
                dirs@ == Direction::all(),
                0 <= i <= 4,
                forall|j: int| 0 <= j < i ==> !self.holds(Direction::all()[j]),
            decreases 4 - i,
        {
            if self.holds_key(dirs[i]) {
                return Some(dirs[i]);
            }
            i = i + 1;
        }
        None
    }

    /// Whether the key of direction `d` is held.
    pub fn holds_key(&self, d: Direction) -> (r: bool)
        ensures
            r == self.holds(d),
    {
        match d {
            Direction::Up => self.up,
            Direction::Right => self.right,
            Direction::Down => self.down,
            Direction::Left => self.left,
        }
    }
}

} // verus!
