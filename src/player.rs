//! The player: a character in the middle of the playfield that turns with the
//! held keys and attacks with a sword in the direction it faces.

use vstd::prelude::*;

use crate::animation::{Animation, AnimationView};
use crate::character::Character;
use crate::direction::{Direction, HeldKeys};
use crate::enemy::Enemy;
use crate::rect::Rect;
use crate::resources::Animations;
use crate::timers::Seconds;
use crate::{GAME_HEIGHT, GAME_WIDTH};

verus! {

/// Frame of an attack during which the sword reaches farthest and kills.
pub const ATTACK_FRAME: usize = 2;

/// The integers from `start` up to, not including, `end`.
pub open spec fn range_seq(start: usize, end: usize) -> Seq<usize> {
    Seq::new((end - start) as nat, |i: int| (start + i) as usize)
}

/// A sword attack in progress.
pub struct AttackAnimation(pub Animation);

impl AttackAnimation {
    /// An attack playing the tiles `indexes` once, with frames of
    /// `frame_seconds` timed from `now`.
    pub fn new(indexes: std::ops::Range<usize>, frame_seconds: Seconds, now: Seconds) -> (r:
        AttackAnimation)
        requires
            indexes.start < indexes.end,
        ensures
            r.0@ == (AnimationView {
                tiles: range_seq(indexes.start, indexes.end),
                current_frame: 0,
                timer: crate::timers::Timer { time: now, delay: frame_seconds },
                repeating: false,
            }),
            r.0@.wf(),
    {
        let mut tiles: Vec<usize> = Vec::new();
        let mut i: usize = indexes.start;
        while i < indexes.end
            invariant
                indexes.start <= i <= indexes.end,
                tiles@ =~= range_seq(indexes.start, i),
            decreases indexes.end - i,
        {
            tiles.push(i);
            i = i + 1;
        }
        AttackAnimation(Animation::new(tiles, frame_seconds, false, now))
    }

    /// Whether the attack is on the frame where it kills.
    pub fn is_attack_frame(&self) -> (r: bool)
        ensures
            r == (self.0@.current_frame == ATTACK_FRAME),
    {
        self.0.current_frame == ATTACK_FRAME
    }
}

/// What a [`Player`] is at a given moment.
pub struct PlayerView {
    pub character: Character,
    /// The attack in progress, if any.
    pub attack: Option<AnimationView>,
}

impl PlayerView {
    /// An attack in progress is a well-formed animation played once, not
    /// yet finished.
    pub open spec fn wf(self) -> bool {
        self.attack matches Some(a) ==> a.wf() && !a.repeating && !a.finished()
    }

    /// The player after turning to the first held direction, if any.
    pub open spec fn directed(self, keys: HeldKeys) -> PlayerView {
        match keys.first_held() {
            Some(d) => PlayerView {
                character: Character { body: self.character.body, direction: d },
                attack: self.attack,
            },
            None => self,
        }
    }

    /// The player after its attack animation is ticked at `now`; the attack
    /// ends once its animation is finished.
    pub open spec fn animated(self, now: Seconds) -> PlayerView {
        match self.attack {
            Some(a) => PlayerView {
                character: self.character,
                attack: if a.ticked(now).finished() {
                    None
                } else {
                    Some(a.ticked(now))
                },
            },
            None => self,
        }
    }

    /// The attack's hit-box: the body moved one body length forward in the
    /// facing direction.
    pub open spec fn slash(self) -> Rect {
        let body = self.character.body;
        let d = self.character.direction;
        body.moved_by(d.dx() * body.w, d.dy() * body.h)
    }

    /// Whether the attack is on its killing frame.
    pub open spec fn attack_live(self) -> bool {
        self.attack matches Some(a) && a.current_frame == ATTACK_FRAME
    }

    /// Whether the player's attack kills a body: the attack is on its killing
    /// frame and its hit-box overlaps the body.
    pub open spec fn kills(self, body: Rect) -> bool {
        self.attack_live() && self.slash().overlaps_with(body)
    }
}

/// The player character and its attack in progress.
pub struct Player {
    pub character: Character,
    pub attacking: Option<AttackAnimation>,
}

impl View for Player {
    type V = PlayerView;

    open spec fn view(&self) -> PlayerView {
        PlayerView {
            character: self.character,
            attack: match self.attacking {
                Some(a) => Some(a.0@),
                None => None,
            },
        }
    }
}

impl Player {
    /// Creates the player, of size `w` by `h`, centered in the middle of the
    /// playfield and facing down.
    pub fn new(w: u32, h: u32) -> (r: Player)
        ensures
            r@.character.body == (Rect {
                x: (GAME_WIDTH / 2 - w / 2) as i64,
                y: (GAME_HEIGHT / 2 - h / 2) as i64,
                w,
                h,
            }),
            r@.character.direction == Direction::Down,
            r@.attack is None,
    {
        Player {
            character: Character::new(GAME_WIDTH / 2, GAME_HEIGHT / 2, w, h, Direction::Down),
            attacking: None,
        }
    }

    /// Turns the player to the first held direction; with none held, the
    /// direction stays.
    pub fn update_direction(&mut self, keys: &HeldKeys)
        ensures
            final(self)@ == old(self)@.directed(*keys),
    {
        if let Some(direction) = keys.first() {
            self.character.direction = direction;
        }
    }

    /// Starts the animation of an attack in the current direction at `now`.
    pub fn start_attack(&mut self, animations: &Animations, now: Seconds)
        ensures
            final(self)@.character == old(self)@.character,
            final(self)@.attack == Some(animations.attacking(old(self)@.character.direction, now)),
            final(self)@.wf(),
    {
        self.attacking = Some(animations.attack(self.character.direction, now));
    }

    /// Updates the animation of the attack.
    pub fn animate_attack(&mut self, now: Seconds)
        requires
            old(self)@.wf(),
        ensures
            final(self)@ == old(self)@.animated(now),
            final(self)@.wf(),
    {
        let finished = match &mut self.attacking {
            Some(animation) => {
                animation.0.tick(now);
                animation.0.is_finished()
            },
            None => false,
        };
        if finished {
            self.attacking = None;
        }
    }

    /// Returns true if the player kills the given enemy with its attack.
    pub fn kill(&self, enemy: &Enemy) -> (r: bool)
        ensures
            r == self@.kills(enemy.character.body),
    {
        match &self.attacking {
            Some(attack) => attack.is_attack_frame() && self.slash_attack().overlaps(
                &enemy.character.body,
            ),
            None => false,
        }
    }

    /// The attack's hit-box: the body moved one body length forward in the
    /// facing direction.
    pub fn slash_attack(&self) -> (r: Rect)
        ensures
            r == self@.slash(),
    {
        let body = self.character.body;
        let (w, h) = (body.w as i64, body.h as i64);
        let (dx, dy): (i64, i64) = match self.character.direction {
            Direction::Up => (0, -h),
            Direction::Right => (w, 0),
            Direction::Down => (0, h),
            Direction::Left => (-w, 0),
        };
        body.offset(dx, dy)
    }

    /// Tile of the player's sprite sheet to draw: the attack's current frame,
    /// or the idle pose for the facing direction.
    pub fn current_tile(&self) -> (r: usize)
        requires
            self@.wf(),
        ensures
            r == match self@.attack {
                Some(a) => a.tiles[a.current_frame as int],
                None => self@.character.direction.idle_tile(),
            },
    {
        match &self.attacking {
            Some(attack) => attack.0.current_tile(),
            None => self.character.direction.tile_index(),
        }
    }
}

} // verus!
