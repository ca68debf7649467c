//! One play session, advanced frame by frame, and the game around it that
//! goes between the menu and sessions and keeps the best score.

use vstd::prelude::*;

use crate::direction::{Direction, HeldKeys};
use crate::character::Character;
use crate::enemy::{random_direction, spawned, Enemy, EnemyView};
use crate::life_bar::LifeBar;
use crate::player::{Player, PlayerView};
use crate::resources::Animations;
use crate::timers::{Cooldown, Seconds, Timer};
use crate::rect::Rect;
use crate::{CHARACTER_SIZE, GAME_HEIGHT, GAME_WIDTH, INITIAL_SPAWN_DELAY_MILLIS, KILL_SCORE, LIVES, SLASH_COOLDOWN_MILLIS};

verus! {

/// What the player does, and the clock, during one frame.
#[derive(Clone, Copy, PartialEq, Eq, Structural, Debug)]
pub struct FrameInput {
    /// The directional keys held.
    pub keys: HeldKeys,
    /// Whether the attack key was just pressed.
    pub attack_pressed: bool,
    /// The current time.
    pub now: Seconds,
    /// Time since the previous frame.
    pub frame_time: Seconds,
}

/// Spawn delay set by a kill at `now`, in milliseconds: `1 / (0.5 + 0.1 t)`
/// seconds at `t` seconds, that is `10_000_000 / (5000 + now)` in
/// milliseconds, rounded down.
pub open spec fn ramp_delay(now: Seconds) -> int {
    10_000_000int / (5000 + now.millis)
}

/// The spawn delay after a kill at `now`; it shrinks as time goes on.
pub fn spawn_delay_after_kill(now: Seconds) -> (r: Seconds)
    requires
        now.millis + 5000 <= u64::MAX,
    ensures
        r.millis == ramp_delay(now),
{
    Seconds { millis: 10_000_000 / (5000 + now.millis) }
}

/// The spawn delay set by a kill never grows with the time of the kill.
pub proof fn lemma_spawn_delay_never_grows(earlier: Seconds, later: Seconds)
    requires
        earlier.millis <= later.millis,
    ensures
        ramp_delay(later) <= ramp_delay(earlier),
{
    vstd::arithmetic::div_mod::lemma_div_is_ordered_by_denominator(
        10_000_000,
        5000 + earlier.millis,
        5000 + later.millis,
    );
}

/// Whether the player's attack kills `e`.
pub open spec fn killed(p: PlayerView, e: EnemyView) -> bool {
    p.kills(e.character.body)
}

/// Whether `e` reaches the player without being killed.
pub open spec fn hurts(p: PlayerView, e: EnemyView) -> bool {
    !killed(p, e) && e.character.collides_with(p.character)
}

/// The enemies of `s` that are neither killed nor reaching the player, in order.
pub open spec fn survivors(p: PlayerView, s: Seq<EnemyView>) -> Seq<EnemyView>
    decreases s.len(),
{
    if s.len() == 0 {
        seq![]
    } else if killed(p, s.last()) || hurts(p, s.last()) {
        survivors(p, s.drop_last())
    } else {
        survivors(p, s.drop_last()).push(s.last())
    }
}

/// How many enemies of `s` the player's attack kills.
pub open spec fn kill_count(p: PlayerView, s: Seq<EnemyView>) -> nat
    decreases s.len(),
{
    if s.len() == 0 {
        0
    } else {
        kill_count(p, s.drop_last()) + if killed(p, s.last()) {
            1nat
        } else {
            0nat
        }
    }
}

/// How many enemies of `s` reach the player without being killed.
pub open spec fn hit_count(p: PlayerView, s: Seq<EnemyView>) -> nat
    decreases s.len(),
{
    if s.len() == 0 {
        0
    } else {
        hit_count(p, s.drop_last()) + if hurts(p, s.last()) {
            1nat
        } else {
            0nat
        }
    }
}

/// What a [`Session`] is at a given moment.
pub struct SessionView {
    pub score: u32,
    pub life_bar: LifeBar,
    pub player: PlayerView,
    pub enemies: Seq<EnemyView>,
    pub slash_cooldown: Cooldown,
    pub spawner: Timer,
}

impl SessionView {
    /// A session started at `now`: full lives, no enemy, the player in the
    /// middle facing down, the attack available.
    pub open spec fn fresh(now: Seconds) -> SessionView {
        SessionView {
            score: 0,
            life_bar: LifeBar { max_lives: LIVES, lives: LIVES },
            player: PlayerView {
                character: Character {
                    body: Rect {
                        x: (GAME_WIDTH / 2 - CHARACTER_SIZE / 2) as i64,
                        y: (GAME_HEIGHT / 2 - CHARACTER_SIZE / 2) as i64,
                        w: CHARACTER_SIZE,
                        h: CHARACTER_SIZE,
                    },
                    direction: Direction::Down,
                },
                attack: None,
            },
            enemies: seq![],
            slash_cooldown: Cooldown {
                available_time: Seconds { millis: 0 },
                duration: Seconds { millis: SLASH_COOLDOWN_MILLIS },
            },
            spawner: Timer { time: now, delay: Seconds { millis: INITIAL_SPAWN_DELAY_MILLIS } },
        }
    }

    pub open spec fn wf(self) -> bool {
        &&& self.player.wf()
        &&& forall|i: int| 0 <= i < self.enemies.len() ==> (#[trigger] self.enemies[i]).wf()
    }

    /// The session has ended: no life is left.
    pub open spec fn over(self) -> bool {
        self.life_bar.lives == 0
    }

    /// Whether a frame with `input` stays within the machine's integers: the
    /// score can take a kill of every enemy, and the clock can take the
    /// cooldown and the spawn delay.
    pub open spec fn steppable(self, input: FrameInput) -> bool {
        &&& self.score + KILL_SCORE * (self.enemies.len() + 1) <= u32::MAX
        &&& input.now.millis + self.slash_cooldown.duration.millis <= u64::MAX
        &&& input.now.millis + 5000 <= u64::MAX
    }

    /// Whether the input starts an attack: the key is pressed and the
    /// cooldown is available.
    pub open spec fn attack_starts(self, input: FrameInput) -> bool {
        input.attack_pressed && self.slash_cooldown.is_available(input.now)
    }

    /// The session after the player turns with the held keys, starts an
    /// attack if it may, and its attack animation is ticked.
    pub open spec fn with_input(self, input: FrameInput, animations: Animations) -> SessionView {
        let turned = self.player.directed(input.keys);
        let armed = if self.attack_starts(input) {
            PlayerView {
                character: turned.character,
                attack: Some(animations.attacking(turned.character.direction, input.now)),
            }
        } else {
            turned
        };
        SessionView {
            player: armed.animated(input.now),
            slash_cooldown: if self.attack_starts(input) {
                self.slash_cooldown.started(input.now)
            } else {
                self.slash_cooldown
            },
            ..self
        }
    }

    /// The session after the spawner is ticked at `now`, adding an enemy
    /// walking in direction `d` at the end when it fires.
    pub open spec fn with_spawn(self, now: Seconds, d: Direction, animations: Animations) -> SessionView {
        SessionView {
            spawner: self.spawner.ticked(now),
            enemies: if self.spawner.fires(now) {
                self.enemies.push(spawned(d, CHARACTER_SIZE, CHARACTER_SIZE, animations, now))
            } else {
                self.enemies
            },
            ..self
        }
    }

    /// The session after every enemy walks for `time` and its walk is
    /// ticked at `now`.
    pub open spec fn with_motion(self, time: Seconds, now: Seconds) -> SessionView {
        SessionView { enemies: self.enemies.map_values(|e: EnemyView| e.moved(time, now)), ..self }
    }

    /// The session after its collisions at `now`: each enemy killed by the
    /// attack scores, makes the attack available again and sets the spawn
    /// delay; each other enemy that reaches the player costs a life; both
    /// kinds leave, the others stay in order.
    pub open spec fn with_collisions(self, now: Seconds) -> SessionView {
        let kills = kill_count(self.player, self.enemies);
        let hits = hit_count(self.player, self.enemies);
        SessionView {
            score: (self.score + KILL_SCORE * kills) as u32,
            life_bar: LifeBar {
                max_lives: self.life_bar.max_lives,
                lives: if self.life_bar.lives >= hits {
                    (self.life_bar.lives - hits) as u32
                } else {
                    0
                },
            },
            player: self.player,
            enemies: survivors(self.player, self.enemies),
            slash_cooldown: if kills > 0 {
                self.slash_cooldown.cleared()
            } else {
                self.slash_cooldown
            },
            spawner: if kills > 0 {
                Timer { time: self.spawner.time, delay: Seconds { millis: ramp_delay(now) as u64 } }
            } else {
                self.spawner
            },
        }
    }

    /// The session after one frame with `input`, an enemy spawning in
    /// direction `d` if one spawns.
    pub open spec fn stepped(self, input: FrameInput, animations: Animations, d: Direction) -> SessionView {
        self.with_input(input, animations).with_spawn(input.now, d, animations).with_motion(
            input.frame_time,
            input.now,
        ).with_collisions(input.now)
    }
}

/// One play session: from the first spawn until no life is left.
pub struct Session {
    pub score: u32,
    pub life_bar: LifeBar,
    pub player: Player,
    pub enemies: Vec<Enemy>,
    pub slash_cooldown: Cooldown,
    pub spawner: Timer,
}

impl View for Session {
    type V = SessionView;

    open spec fn view(&self) -> SessionView {
        SessionView {
            score: self.score,
            life_bar: self.life_bar,
            player: self.player@,
            enemies: self.enemies@.map_values(|e: Enemy| e@),
            slash_cooldown: self.slash_cooldown,
            spawner: self.spawner,
        }
    }
}

/// Walks every enemy for `time` and ticks its walk at `now`.
fn move_enemies(enemies: &mut Vec<Enemy>, time: Seconds, now: Seconds)
    requires
        forall|i: int| 0 <= i < old(enemies)@.len() ==> (#[trigger] old(enemies)@[i])@.wf(),
    ensures
        final(enemies)@.map_values(|e: Enemy| e@) == old(enemies)@.map_values(|e: Enemy| e@).map_values(
            |e: EnemyView| e.moved(time, now),
        ),
        forall|i: int| 0 <= i < final(enemies)@.len() ==> (#[trigger] final(enemies)@[i])@.wf(),
{
    let ghost start = enemies@;
    let mut i: usize = 0;
    while i < enemies.len()
        invariant
            enemies@.len() == start.len(),
            0 <= i <= start.len(),
            forall|j: int| 0 <= j < i ==> (#[trigger] enemies@[j])@ == start[j]@.moved(time, now),
            forall|j: int| 0 <= j < i ==> (#[trigger] enemies@[j])@.wf(),
            forall|j: int| i <= j < start.len() ==> #[trigger] enemies@[j] == start[j],
            forall|j: int| 0 <= j < start.len() ==> (#[trigger] start[j])@.wf(),
        decreases start.len() - i,
    {
        enemies[i].move_and_animate(time, now);
        i = i + 1;
    }
    assert(enemies@.map_values(|e: Enemy| e@) =~= start.map_values(|e: Enemy| e@).map_values(
        |e: EnemyView| e.moved(time, now),
    ));
}

impl Session {
    /// A new session started at `now`: full lives, no enemy, the player in
    /// the middle, the attack available.
    pub fn new(now: Seconds) -> (r: Session)
        ensures
            r@ == SessionView::fresh(now),
            r@.wf(),
    {
        let r = Session {
            score: 0,
            life_bar: LifeBar::new(LIVES),
            player: Player::new(CHARACTER_SIZE, CHARACTER_SIZE),
            enemies: Vec::new(),
            slash_cooldown: Cooldown::from_seconds(Seconds::from_millis(SLASH_COOLDOWN_MILLIS)),
            spawner: Timer::from_seconds(Seconds::from_millis(INITIAL_SPAWN_DELAY_MILLIS), now),
        };
        assert(r@.enemies =~= SessionView::fresh(now).enemies);
        r
    }

    /// Whether a frame with `input` stays within the machine's integers.
    pub fn can_step(&self, input: &FrameInput) -> (r: bool)
        ensures
            r == self@.steppable(*input),
    {
        let n = self.enemies.len();
        if n >= u32::MAX as usize {
            return false;
        }
        self.score as u64 + KILL_SCORE as u64 * (n as u64 + 1) <= u32::MAX as u64
            && input.now.millis <= u64::MAX - self.slash_cooldown.duration.millis
            && input.now.millis <= u64::MAX - 5000
    }

    /// Turns the player, starts an attack if the key is pressed and the
    /// cooldown allows, and ticks the attack in progress.
    fn handle_input(&mut self, input: &FrameInput, animations: &Animations)
        requires
            old(self)@.wf(),
            input.now.millis + old(self).slash_cooldown.duration.millis <= u64::MAX,
        ensures
            final(self)@ == old(self)@.with_input(*input, *animations),
            final(self)@.wf(),
    {
        self.player.update_direction(&input.keys);
        if input.attack_pressed && self.slash_cooldown.available(input.now) {
            self.slash_cooldown.start(input.now);
            self.player.start_attack(animations, input.now);
        }
        self.player.animate_attack(input.now);
    }

    /// Resolves the collisions of the frame at `now`, enemy by enemy in
    /// order: a kill scores, makes the attack available again and sets the
    /// spawn delay; otherwise an enemy reaching the player costs a life.
    /// Both leave; the other enemies stay in order.
    fn resolve_collisions(&mut self, now: Seconds)
        requires
            old(self)@.wf(),
            old(self)@.score + KILL_SCORE * old(self)@.enemies.len() <= u32::MAX,
            now.millis + 5000 <= u64::MAX,
        ensures
            final(self)@ == old(self)@.with_collisions(now),
            final(self)@.wf(),
    {
        let ghost s0 = self@;
        let mut pending: Vec<Enemy> = Vec::new();
        std::mem::swap(&mut pending, &mut self.enemies);
        let ghost all = pending@;
        let mut kept: Vec<Enemy> = Vec::new();
        let ghost mut i: int = 0;
        while pending.len() > 0
            invariant
                0 <= i <= all.len(),
                pending@ == all.subrange(i, all.len() as int),
                s0.enemies == all.map_values(|e: Enemy| e@),
                s0.wf(),
                s0.score + KILL_SCORE * s0.enemies.len() <= u32::MAX,
                now.millis + 5000 <= u64::MAX,
                self.player@ == s0.player,
                self.score == s0.score + KILL_SCORE * kill_count(s0.player, s0.enemies.subrange(0, i)),
                kill_count(s0.player, s0.enemies.subrange(0, i)) <= i,
                self.life_bar == (LifeBar {
                    max_lives: s0.life_bar.max_lives,
                    lives: if s0.life_bar.lives >= hit_count(s0.player, s0.enemies.subrange(0, i)) {
                        (s0.life_bar.lives - hit_count(s0.player, s0.enemies.subrange(0, i))) as u32
                    } else {
                        0
                    },
                }),
                kill_count(s0.player, s0.enemies.subrange(0, i)) > 0 ==> self.slash_cooldown
                    == s0.slash_cooldown.cleared() && self.spawner == (Timer {
                    time: s0.spawner.time,
                    delay: Seconds { millis: ramp_delay(now) as u64 },
                }),
                kill_count(s0.player, s0.enemies.subrange(0, i)) == 0 ==> self.slash_cooldown
                    == s0.slash_cooldown && self.spawner == s0.spawner,
                kept@.map_values(|e: Enemy| e@) == survivors(s0.player, s0.enemies.subrange(0, i)),
                forall|j: int| 0 <= j < kept@.len() ==> (#[trigger] kept@[j])@.wf(),
            decreases pending.len(),
        {
            let enemy = pending.remove(0);
            let ghost prefix = s0.enemies.subrange(0, i);
            let ghost next = s0.enemies.subrange(0, i + 1);
            proof {
                assert(enemy == all[i]);
                assert(next.drop_last() =~= prefix);
                assert(next.last() == enemy@);
                assert(s0.enemies[i] == enemy@);
            }
            if self.player.kill(&enemy) {
                self.score = self.score + KILL_SCORE;
                self.slash_cooldown.reset();
                self.spawner.delay = spawn_delay_after_kill(now);
            } else if enemy.character.collide(&self.player.character) {
                self.life_bar.decrement();
            } else {
                kept.push(enemy);
                proof {
                    assert(kept@.map_values(|e: Enemy| e@) =~= survivors(s0.player, prefix).push(
                        enemy@,
                    ));
                }
            }
            proof {
                i = i + 1;
                assert(pending@ =~= all.subrange(i, all.len() as int));
            }
        }
        proof {
            assert(s0.enemies.subrange(0, i) =~= s0.enemies);
        }
        self.enemies = kept;
    }

    /// Advances the session by one frame with `input`; an enemy that spawns
    /// walks in `spawn_direction`. Returns the final score once no life is
    /// left.
    pub fn step_with(
        &mut self,
        input: &FrameInput,
        animations: &Animations,
        spawn_direction: Direction,
    ) -> (r: Option<u32>)
        requires
            old(self)@.wf(),
            old(self)@.steppable(*input),
        ensures
            final(self)@ == old(self)@.stepped(*input, *animations, spawn_direction),
            final(self)@.wf(),
            r == if final(self)@.over() {
                Some(final(self)@.score)
            } else {
                None
            },
    {
        self.handle_input(input, animations);
        if self.spawner.tick_and_finished(input.now) {
            self.enemies.push(
                Enemy::spawn(spawn_direction, CHARACTER_SIZE, CHARACTER_SIZE, animations, input.now),
            );
        }
        proof {
            assert(self@.enemies =~= old(self)@.with_input(*input, *animations).with_spawn(
                input.now,
                spawn_direction,
                *animations,
            ).enemies);
            assert forall|i: int| 0 <= i < self.enemies@.len() implies (
            #[trigger] self.enemies@[i])@.wf() by {
                assert(self@.enemies[i] == self.enemies@[i]@);
            }
        }
        move_enemies(&mut self.enemies, input.frame_time, input.now);
        self.resolve_collisions(input.now);
        if self.life_bar.is_empty() {
            Some(self.score)
        } else {
            None
        }
    }

    /// Advances the session by one frame with `input`; an enemy that spawns
    /// appears on a side picked at random. Returns the final score once no
    /// life is left.
    pub fn step(&mut self, input: &FrameInput, animations: &Animations) -> (r: Option<u32>)
        requires
            old(self)@.wf(),
            old(self)@.steppable(*input),
        ensures
            exists|d: Direction| final(self)@ == old(self)@.stepped(*input, *animations, d),
            final(self)@.wf(),
            r == if final(self)@.over() {
                Some(final(self)@.score)
            } else {
                None
            },
    {
        self.step_with(input, animations, random_direction())
    }
}

/// In a frame, the spawn delay changes only when the attack kills an enemy,
/// and then becomes the delay that a kill sets at that frame's time.
pub proof fn lemma_spawn_delay_set_only_by_kills(
    s: SessionView,
    input: FrameInput,
    animations: Animations,
    d: Direction,
)
    ensures
        ({
            let moved = s.with_input(input, animations).with_spawn(input.now, d, animations).with_motion(
                input.frame_time,
                input.now,
            );
            s.stepped(input, animations, d).spawner.delay.millis == if kill_count(
                moved.player,
                moved.enemies,
            ) > 0 {
                ramp_delay(input.now)
            } else {
                s.spawner.delay.millis as int
            }
        }),
{
}

/// The game: a menu between sessions, and the best score so far.
pub struct Game {
    pub max_score: u32,
    /// The session being played; none while in the menu.
    pub session: Option<Session>,
}

impl Game {
    pub open spec fn wf(&self) -> bool {
        self.session matches Some(s) ==> s@.wf()
    }

    /// Whether `g` is what the game becomes, returning `r`, when its session
    /// has become `t`: an ended session reports its score, which may become
    /// the best one, and the game goes back to the menu.
    pub open spec fn after_session_frame(
        t: SessionView,
        max_score: u32,
        g: Game,
        r: Option<u32>,
    ) -> bool {
        if t.over() {
            &&& g.session is None
            &&& g.max_score == if t.score > max_score {
                t.score
            } else {
                max_score
            }
            &&& r == Some(t.score)
        } else {
            &&& g.session matches Some(s) && s@ == t
            &&& g.max_score == max_score
            &&& r is None
        }
    }

    /// A game in the menu, with no score yet.
    pub fn new() -> (r: Game)
        ensures
            r.max_score == 0,
            r.session is None,
    {
        Game { max_score: 0, session: None }
    }

    /// Runs one frame: in the menu, the attack key starts a session; in a
    /// session, the session advances, and once it has ended its score is
    /// returned and the game goes back to the menu.
    pub fn frame(&mut self, input: &FrameInput, animations: &Animations) -> (r: Option<u32>)
        requires
            old(self).wf(),
            old(self).session matches Some(s) ==> s@.steppable(*input),
        ensures
            final(self).wf(),
            match old(self).session {
                None => {
                    &&& final(self).max_score == old(self).max_score
                    &&& r is None
                    &&& if input.attack_pressed {
                        final(self).session matches Some(s) && s@ == SessionView::fresh(input.now)
                    } else {
                        final(self).session is None
                    }
                },
                Some(s) => exists|d: Direction|
                    Game::after_session_frame(
                        #[trigger] s@.stepped(*input, *animations, d),
                        old(self).max_score,
                        *final(self),
                        r,
                    ),
            },
    {
        let mut current: Option<Session> = None;
        std::mem::swap(&mut current, &mut self.session);
        match current {
            None => {
                if input.attack_pressed {
                    self.session = Some(Session::new(input.now));
                }
                None
            },
            Some(mut session) => {
                let ghost before = session@;
                let ended = session.step(input, animations);
                let ghost d = choose|d: Direction|
                    session@ == before.stepped(*input, *animations, d);
                match ended {
                    Some(score) => {
                        if score > self.max_score {
                            self.max_score = score;
                        }
                        assert(Game::after_session_frame(
                            before.stepped(*input, *animations, d),
                            old(self).max_score,
                            *self,
                            ended,
                        ));
                        ended
                    },
                    None => {
                        self.session = Some(session);
                        assert(Game::after_session_frame(
                            before.stepped(*input, *animations, d),
                            old(self).max_score,
                            *self,
                            ended,
                        ));
                        None
                    },
                }
            },
        }
    }
}

} // verus!
