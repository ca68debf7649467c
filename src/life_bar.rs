//! The player's lives.

use vstd::prelude::*;

verus! {

/// Lives left out of a maximum; losing a life when none is left keeps it at zero.
#[derive(Clone, Copy, PartialEq, Eq, Structural, Debug)]
pub struct LifeBar {
    pub max_lives: u32,
    pub lives: u32,
}

impl LifeBar {
    /// The bar after losing one life, stopping at zero.
    pub open spec fn decremented(self) -> LifeBar {
        LifeBar {
            max_lives: self.max_lives,
            lives: if self.lives == 0 {
                0
            } else {
                (self.lives - 1) as u32
            },
        }
    }

    /// A full bar of `max_lives` lives.
    pub fn new(max_lives: u32) -> (r: LifeBar)
        ensures
            r.max_lives == max_lives,
            r.lives == max_lives,
    {
        LifeBar { max_lives, lives: max_lives }
    }

    /// Which hearts to show, from the left: a full one for each life left,
    /// then an empty one for each life lost.
    pub fn hearts(&self) -> (r: Vec<bool>)
        ensures
            r@.len() == self.max_lives,
            forall|i: int| 0 <= i < self.max_lives ==> r@[i] == (i < self.lives),
    {
        let mut r: Vec<bool> = Vec::new();
        let mut index: u32 = 0;
        while index < self.max_lives
            invariant
                index <= self.max_lives,
                r@.len() == index,
                forall|i: int| 0 <= i < index ==> r@[i] == (i < self.lives),
            decreases self.max_lives - index,
        {
            r.push(index < self.lives);
            index = index + 1;
        }
        r
    }

    /// Loses one life, if any is left.
    pub fn decrement(&mut self)
        ensures
            *final(self) == old(self).decremented(),
    {
        self.lives = self.lives.saturating_sub(1);
    }

    /// Whether no life is left.
    pub fn is_empty(&self) -> (r: bool)
        ensures
            r == (self.lives == 0),
    {
        self.lives == 0
    }
}

} // verus!
