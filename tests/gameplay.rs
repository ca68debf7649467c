use arcade_knight::direction::{Direction, HeldKeys};
use arcade_knight::enemy::Enemy;
use arcade_knight::game::{FrameInput, Game, Session};
use arcade_knight::player::Player;
use arcade_knight::rect::Rect;
use arcade_knight::resources::Animations;
use arcade_knight::timers::Seconds;
use arcade_knight::{CHARACTER_SIZE, GAME_HEIGHT, GAME_WIDTH, LIVES};

const NO_KEYS: HeldKeys = HeldKeys { up: false, right: false, down: false, left: false };

fn at(millis: u64) -> Seconds {
    Seconds::from_millis(millis)
}

fn frame(now: u64, attack_pressed: bool) -> FrameInput {
    FrameInput { keys: NO_KEYS, attack_pressed, now: at(now), frame_time: at(0) }
}

fn enemy_at(animations: &Animations, body: Rect) -> Enemy {
    let mut enemy = Enemy::spawn(Direction::Down, body.w, body.h, animations, at(0));
    enemy.character.body = body;
    enemy
}

/// A session whose player has body (100, 100, 20, 20), faces `facing`, and
/// is on the killing frame of an attack started at time zero.
fn attacking_session(animations: &Animations, facing: Direction) -> Session {
    let mut session = Session::new(at(0));
    session.player.character.body = Rect::new(100, 100, 20, 20);
    session.player.character.direction = facing;
    session.slash_cooldown.start(at(0));
    let mut attack = animations.attack(facing, at(0));
    attack.0.current_frame = 2;
    session.player.attacking = Some(attack);
    session
}

#[test]
fn attack_kills_enemy_in_reach() {
    let animations = Animations::new();
    let mut session = attacking_session(&animations, Direction::Down);
    session.enemies.push(enemy_at(&animations, Rect::new(100, 130, 10, 10)));
    assert!(session.player.kill(&session.enemies[0]));
    assert!(!session.slash_cooldown.available(at(10)));

    let ended = session.step_with(&frame(10, false), &animations, Direction::Up);
    assert_eq!(ended, None);
    assert_eq!(session.score, 10);
    assert!(session.enemies.is_empty());
    assert!(session.slash_cooldown.available(at(10)));
    assert_eq!(session.life_bar.lives, LIVES);
    assert_eq!(session.spawner.delay, at(10_000_000 / 5010));
}

#[test]
fn attack_in_other_direction_misses() {
    let animations = Animations::new();
    let mut session = attacking_session(&animations, Direction::Up);
    session.enemies.push(enemy_at(&animations, Rect::new(100, 130, 10, 10)));
    assert!(!session.player.kill(&session.enemies[0]));

    let ended = session.step_with(&frame(10, false), &animations, Direction::Up);
    assert_eq!(ended, None);
    assert_eq!(session.score, 0);
    assert_eq!(session.enemies.len(), 1);
    assert_eq!(session.enemies[0].character.body, Rect::new(100, 130, 10, 10));
    assert_eq!(session.spawner.delay, at(1000));
    assert!(!session.slash_cooldown.available(at(10)));
}

#[test]
fn slash_reaches_one_body_length_forward() {
    let mut player = Player::new(20, 20);
    player.character.body = Rect::new(100, 100, 20, 20);
    let expected = [
        (Direction::Up, Rect::new(100, 80, 20, 20)),
        (Direction::Right, Rect::new(120, 100, 20, 20)),
        (Direction::Down, Rect::new(100, 120, 20, 20)),
        (Direction::Left, Rect::new(80, 100, 20, 20)),
    ];
    for (d, slash) in expected {
        player.character.direction = d;
        assert_eq!(player.slash_attack(), slash);
    }
}

#[test]
fn attack_kills_only_on_its_killing_frame() {
    let animations = Animations::new();
    let mut session = attacking_session(&animations, Direction::Down);
    let enemy = enemy_at(&animations, Rect::new(100, 130, 10, 10));
    for frame_index in [0usize, 1, 3] {
        if let Some(attack) = session.player.attacking.as_mut() {
            attack.0.current_frame = frame_index;
        }
        assert!(!session.player.kill(&enemy));
    }
}

#[test]
fn contact_costs_one_life_and_ends_the_session() {
    let animations = Animations::new();
    let mut session = Session::new(at(0));
    session.score = 30;
    let player_body = session.player.character.body;
    for lost in 1..=LIVES {
        session.enemies.push(enemy_at(&animations, player_body));
        let ended = session.step_with(&frame(10, false), &animations, Direction::Up);
        assert_eq!(session.life_bar.lives, LIVES - lost);
        assert!(session.enemies.is_empty());
        if lost < LIVES {
            assert_eq!(ended, None);
        } else {
            assert_eq!(ended, Some(30));
        }
    }
    session.life_bar.decrement();
    assert_eq!(session.life_bar.lives, 0);
}

#[test]
fn killed_enemy_touching_the_player_costs_no_life() {
    let animations = Animations::new();
    let mut session = attacking_session(&animations, Direction::Down);
    session.enemies.push(enemy_at(&animations, Rect::new(105, 115, 10, 10)));
    session.step_with(&frame(10, false), &animations, Direction::Up);
    assert_eq!(session.score, 10);
    assert_eq!(session.life_bar.lives, LIVES);
}

#[test]
fn survivors_keep_their_order() {
    let animations = Animations::new();
    let mut session = attacking_session(&animations, Direction::Down);
    session.enemies.push(enemy_at(&animations, Rect::new(0, 0, 10, 10)));
    session.enemies.push(enemy_at(&animations, Rect::new(100, 130, 10, 10)));
    session.enemies.push(enemy_at(&animations, Rect::new(200, 0, 10, 10)));
    session.enemies.push(enemy_at(&animations, Rect::new(105, 105, 5, 5)));
    session.enemies.push(enemy_at(&animations, Rect::new(0, 200, 10, 10)));
    session.step_with(&frame(10, false), &animations, Direction::Up);
    assert_eq!(session.score, 10);
    assert_eq!(session.life_bar.lives, LIVES - 1);
    let bodies: Vec<Rect> = session.enemies.iter().map(|e| e.character.body).collect();
    assert_eq!(
        bodies,
        vec![Rect::new(0, 0, 10, 10), Rect::new(200, 0, 10, 10), Rect::new(0, 200, 10, 10)]
    );
}

#[test]
fn spawn_delay_changes_only_on_kills() {
    let animations = Animations::new();
    let mut session = Session::new(at(0));
    for t in [10u64, 500, 900] {
        session.step_with(&frame(t, false), &animations, Direction::Up);
        assert_eq!(session.spawner.delay, at(1000));
    }
    session.step_with(&frame(1001, false), &animations, Direction::Up);
    assert_eq!(session.enemies.len(), 1);
    assert_eq!(session.spawner.delay, at(1000));
}

#[test]
fn spawner_adds_enemy_on_the_chosen_edge() {
    let animations = Animations::new();
    let mut session = Session::new(at(0));
    session.step_with(&frame(1001, false), &animations, Direction::Left);
    assert_eq!(session.enemies.len(), 1);
    let enemy = &session.enemies[0];
    assert_eq!(enemy.character.direction, Direction::Left);
    assert_eq!(enemy.character.position(), (GAME_WIDTH, GAME_HEIGHT / 2));
    assert!(enemy.alive);
    assert_eq!(session.spawner.time, at(1001));
}

#[test]
fn attack_key_starts_attack_and_cooldown() {
    let animations = Animations::new();
    let mut session = Session::new(at(0));
    let input = FrameInput {
        keys: HeldKeys { up: false, right: true, down: false, left: false },
        attack_pressed: true,
        now: at(100),
        frame_time: at(16),
    };
    session.step_with(&input, &animations, Direction::Up);
    assert_eq!(session.player.character.direction, Direction::Right);
    assert!(session.player.attacking.is_some());
    assert_eq!(session.player.current_tile(), 8);
    assert!(!session.slash_cooldown.available(at(399)));
    assert!(session.slash_cooldown.available(at(400)));

    // The cooldown ignores a second press, and the attack plays out.
    let mut now = 100;
    for _ in 0..4 {
        now += 51;
        session.step_with(&frame(now, true), &animations, Direction::Up);
    }
    assert!(session.player.attacking.is_none());
    assert_eq!(session.player.current_tile(), Direction::Right.tile_index());
    // The held direction stays when no key is held.
    assert_eq!(session.player.character.direction, Direction::Right);
}

#[test]
fn enemies_walk_and_animate() {
    let animations = Animations::new();
    let mut enemy = Enemy::spawn(Direction::Down, CHARACTER_SIZE, CHARACTER_SIZE, &animations, at(0));
    assert_eq!(enemy.character.position(), (GAME_WIDTH / 2, 0));
    assert_eq!(enemy.current_tile(), 0);
    enemy.move_and_animate(at(16), at(101));
    assert_eq!(enemy.character.position(), (GAME_WIDTH / 2, 640));
    assert_eq!(enemy.current_tile(), 1);
}

#[test]
fn random_enemies_come_from_every_edge() {
    let animations = Animations::new();
    let mut seen = [false; 4];
    for _ in 0..400 {
        let enemy = Enemy::new_random(CHARACTER_SIZE, CHARACTER_SIZE, &animations, at(0));
        let d = enemy.character.direction;
        let expected = Enemy::spawn(d, CHARACTER_SIZE, CHARACTER_SIZE, &animations, at(0));
        assert_eq!(enemy.character, expected.character);
        assert_eq!(enemy.animation.tile_indexes, expected.animation.tile_indexes);
        seen[d.tile_index()] = true;
    }
    assert_eq!(seen, [true; 4]);
}

#[test]
fn game_goes_from_menu_to_session_and_back() {
    let animations = Animations::new();
    let mut game = Game::new();
    assert_eq!(game.frame(&frame(0, false), &animations), None);
    assert!(game.session.is_none());
    assert_eq!(game.frame(&frame(10, true), &animations), None);
    assert!(game.session.is_some());

    if let Some(session) = game.session.as_mut() {
        session.score = 120;
        session.life_bar.lives = 1;
        let body = session.player.character.body;
        session.enemies.push(enemy_at(&animations, body));
    }
    assert_eq!(game.frame(&frame(20, false), &animations), Some(120));
    assert!(game.session.is_none());
    assert_eq!(game.max_score, 120);

    game.frame(&frame(30, true), &animations);
    if let Some(session) = game.session.as_mut() {
        session.score = 50;
        session.life_bar.lives = 1;
        let body = session.player.character.body;
        session.enemies.push(enemy_at(&animations, body));
    }
    assert_eq!(game.frame(&frame(40, false), &animations), Some(50));
    assert_eq!(game.max_score, 120);
}

#[test]
fn session_step_bounds() {
    let session = Session::new(at(0));
    assert!(session.can_step(&frame(10, false)));
    assert!(!session.can_step(&frame(u64::MAX, false)));
    let mut rich = Session::new(at(0));
    rich.score = u32::MAX - 5;
    assert!(!rich.can_step(&frame(10, false)));
}
