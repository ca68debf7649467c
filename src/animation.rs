//! Frame-indexed sprite playback: a texture atlas cut into tiles, and
//! animations that step through tiles of it at a fixed pace.

use vstd::prelude::*;

use crate::timers::{Seconds, Timer};

verus! {

/// A rectangle of a texture, in pixels.
#[derive(Clone, Copy, PartialEq, Eq, Structural, Debug)]
pub struct Tile {
    pub x: u32,
    pub y: u32,
    pub w: u32,
    pub h: u32,
}

/// The tiles of a texture cut along a grid, row by row.
pub struct TextureAtlas {
    pub tiles: Vec<Tile>,
}

/// Tile `index` of a grid `columns` tiles wide, tiles of size `w` by `h`
/// numbered row by row.
pub open spec fn grid_tile(w: u32, h: u32, columns: nat, index: int) -> Tile {
    Tile { x: ((index % columns as int) * w) as u32, y: ((index / columns as int) * h) as u32, w, h }
}

impl TextureAtlas {
    /// Creates an atlas with all the tiles of a `columns` by `rows` grid of
    /// tiles of `tile_size`, indexed row by row. The grid must fit in a
    /// texture of `texture_size`.
    pub fn from_grid(
        texture_size: (u32, u32),
        tile_size: (u32, u32),
        columns: usize,
        rows: usize,
    ) -> (r: TextureAtlas)
        requires
            columns * tile_size.0 <= texture_size.0,
            rows * tile_size.1 <= texture_size.1,
            columns * rows <= usize::MAX,
        ensures
            r.tiles@.len() == columns * rows,
            forall|i: int|
                0 <= i < columns * rows ==> r.tiles@[i] == grid_tile(
                    tile_size.0,
                    tile_size.1,
                    columns as nat,
                    i,
                ),
    {
        let (w, h) = tile_size;
        let mut tiles: Vec<Tile> = Vec::new();
        let mut y: usize = 0;
        while y < rows
            invariant
                0 <= y <= rows,
                columns * w <= texture_size.0,
                rows * h <= texture_size.1,
                columns * rows <= usize::MAX,
                tiles@.len() == y * columns,
                forall|i: int|
                    0 <= i < tiles@.len() ==> tiles@[i] == grid_tile(w, h, columns as nat, i),
            decreases rows - y,
        {
            assert(y * h <= rows * h) by (nonlinear_arith)
                requires
                    y < rows,
            ;
            let mut x: usize = 0;
            while x < columns
                invariant
                    0 <= y < rows,
                    0 <= x <= columns,
                    columns * w <= texture_size.0,
                    y * h <= texture_size.1,
                    columns * rows <= usize::MAX,
                    tiles@.len() == y * columns + x,
                    forall|i: int|
                        0 <= i < tiles@.len() ==> tiles@[i] == grid_tile(w, h, columns as nat, i),
                decreases columns - x,
            {
                assert(x * w <= columns * w) by (nonlinear_arith)
                    requires
                        x < columns,
                ;
                assert(y * columns + x < columns * rows) by (nonlinear_arith)
                    requires
                        x < columns,
                        y < rows,
                ;
                let tile = Tile {
                    x: (x as u64 * w as u64) as u32,
                    y: (y as u64 * h as u64) as u32,
                    w,
                    h,
                };
                proof {
                    let i = y * columns + x;
                    vstd::arithmetic::div_mod::lemma_fundamental_div_mod_converse(
                        i,
                        columns as int,
                        y as int,
                        x as int,
                    );
                    assert(tile == grid_tile(w, h, columns as nat, i));
                }
                tiles.push(tile);
                x = x + 1;
            }
            assert((y + 1) * columns == y * columns + columns) by (nonlinear_arith);
            y = y + 1;
        }
        assert(rows * columns == columns * rows) by (nonlinear_arith);
        TextureAtlas { tiles }
    }

    /// The tile at `index`.
    pub fn tile(&self, index: usize) -> (r: Tile)
        requires
            index < self.tiles@.len(),
        ensures
            r == self.tiles@[index as int],
    {
        self.tiles[index]
    }
}

/// What an [`Animation`] is at a given moment.
pub struct AnimationView {
    /// Indexes of the atlas tiles composing the animation, in order.
    pub tiles: Seq<usize>,
    /// Index of the current frame; the length of `tiles` once finished.
    pub current_frame: usize,
    /// Timer keeping track of the frame durations.
    pub timer: Timer,
    /// Whether the animation starts over as soon as it would finish.
    pub repeating: bool,
}

impl AnimationView {
    /// The cursor stays within `[0, len]`, and a repeating animation is never
    /// left finished.
    pub open spec fn wf(self) -> bool {
        &&& 0 < self.tiles.len() <= usize::MAX
        &&& self.current_frame <= self.tiles.len()
        &&& self.repeating ==> self.current_frame < self.tiles.len()
    }

    pub open spec fn finished(self) -> bool {
        self.current_frame >= self.tiles.len()
    }

    /// The animation back on its first frame, its frame timer started at `now`.
    pub open spec fn restarted(self, now: Seconds) -> AnimationView {
        AnimationView {
            tiles: self.tiles,
            current_frame: 0,
            timer: Timer { time: now, delay: self.timer.delay },
            repeating: self.repeating,
        }
    }

    /// The animation after a tick at `now`: when its frame timer fires it goes
    /// to the next frame, stopping at the end, or starting over if repeating.
    pub open spec fn ticked(self, now: Seconds) -> AnimationView {
        if !self.timer.fires(now) {
            self
        } else {
            let next: int = if self.current_frame < self.tiles.len() {
                self.current_frame + 1
            } else {
                self.current_frame as int
            };
            if self.repeating && next >= self.tiles.len() {
                self.restarted(now)
            } else {
                AnimationView {
                    tiles: self.tiles,
                    current_frame: next as usize,
                    timer: self.timer.ticked(now),
                    repeating: self.repeating,
                }
            }
        }
    }

    /// The animation after a tick at each of `times`, in order.
    pub open spec fn ticked_at(self, times: Seq<Seconds>) -> AnimationView
        decreases times.len(),
    {
        if times.len() == 0 {
            self
        } else {
            self.ticked(times[0]).ticked_at(times.drop_first())
        }
    }
}

/// Whether each of `times` comes more than `timer`'s delay after the one
/// before it, the first after the timer's own start: a tick at each fires.
pub open spec fn fires_at_each(timer: Timer, times: Seq<Seconds>) -> bool {
    forall|i: int|
        0 <= i < times.len() ==> times[i].millis > (if i == 0 {
            timer.time
        } else {
            times[i - 1]
        }).millis + timer.delay.millis
}

/// Plays tiles of an atlas in order, one frame per delay of its timer.
pub struct Animation {
    pub tile_indexes: Vec<usize>,
    pub current_frame: usize,
    pub frame_timer: Timer,
    pub repeating: bool,
}

impl View for Animation {
    type V = AnimationView;

    open spec fn view(&self) -> AnimationView {
        AnimationView {
            tiles: self.tile_indexes@,
            current_frame: self.current_frame,
            timer: self.frame_timer,
            repeating: self.repeating,
        }
    }
}

impl Animation {
    /// Creates an animation on its first frame, with frames of `frame_seconds`
    /// timed from `now`.
    pub fn new(tile_indexes: Vec<usize>, frame_seconds: Seconds, repeating: bool, now: Seconds) -> (r:
        Animation)
        requires
            tile_indexes@.len() > 0,
        ensures
            r@ == (AnimationView {
                tiles: tile_indexes@,
                current_frame: 0,
                timer: Timer { time: now, delay: frame_seconds },
                repeating,
            }),
            r@.wf(),
    {
        assert(tile_indexes@.len() == tile_indexes.len());
        Animation {
            tile_indexes,
            repeating,
            frame_timer: Timer::from_seconds(frame_seconds, now),
            current_frame: 0,
        }
    }

    /// Updates the current frame.
    pub fn tick(&mut self, now: Seconds)
        requires
            old(self)@.wf(),
        ensures
            final(self)@ == old(self)@.ticked(now),
            final(self)@.wf(),
    {
        if self.frame_timer.tick_and_finished(now) {
            if self.current_frame < self.tile_indexes.len() {
                self.current_frame = self.current_frame + 1;
            }
            if self.repeating && self.is_finished() {
                self.restart(now);
            }
        }
    }

    /// Whether or not the animation is finished.
    pub fn is_finished(&self) -> (r: bool)
        ensures
            r == self@.finished(),
    {
        self.current_frame >= self.tile_indexes.len()
    }

    /// Restarts the animation to the initial frame.
    pub fn restart(&mut self, now: Seconds)
        ensures
            final(self)@ == old(self)@.restarted(now),
    {
        self.current_frame = 0;
        self.frame_timer.restart(now);
    }

    /// Index in the atlas of the tile of the current frame.
    pub fn current_tile(&self) -> (r: usize)
        requires
            !self@.finished(),
        ensures
            r == self@.tiles[self@.current_frame as int],
    {
        self.tile_indexes[self.current_frame]
    }
}

/// A non-repeating animation, ticked at instants where each tick advances it,
/// goes one frame further per tick until it stops on its end.
pub proof fn lemma_ticks_advance_frames(a: AnimationView, times: Seq<Seconds>)
    requires
        a.wf(),
        !a.repeating,
        fires_at_each(a.timer, times),
    ensures
        a.ticked_at(times).wf(),
        a.ticked_at(times).tiles == a.tiles,
        !a.ticked_at(times).repeating,
        a.ticked_at(times).current_frame == if a.current_frame + times.len() <= a.tiles.len() {
            a.current_frame + times.len()
        } else {
            a.tiles.len() as int
        },
    decreases times.len(),
{
    if times.len() > 0 {
        assert(a.timer.fires(times[0]));
        let b = a.ticked(times[0]);
        assert(b.timer == Timer { time: times[0], delay: a.timer.delay });
        let rest = times.drop_first();
        assert(fires_at_each(b.timer, rest)) by {
            assert forall|i: int| 0 <= i < rest.len() implies rest[i].millis > (if i == 0 {
                b.timer.time
            } else {
                rest[i - 1]
            }).millis + b.timer.delay.millis by {
                assert(rest[i] == times[i + 1]);
            }
        }
        lemma_ticks_advance_frames(b, rest);
    }
}

/// A non-repeating animation on its first frame, ticked once per frame at
/// instants where each tick advances it, is finished after as many ticks as
/// it has frames; restarting it then puts it back on its first frame,
/// unfinished.
pub proof fn lemma_animation_round_trip(a: AnimationView, times: Seq<Seconds>, now: Seconds)
    requires
        a.wf(),
        !a.repeating,
        a.current_frame == 0,
        times.len() == a.tiles.len(),
        fires_at_each(a.timer, times),
    ensures
        a.ticked_at(times).finished(),
        a.ticked_at(times).restarted(now).current_frame == 0,
        !a.ticked_at(times).restarted(now).finished(),
{
    lemma_ticks_advance_frames(a, times);
}

} // verus!
