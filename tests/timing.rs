use arcade_knight::animation::Animation;
use arcade_knight::game::spawn_delay_after_kill;
use arcade_knight::timers::{Cooldown, Seconds, Timer};

fn at(millis: u64) -> Seconds {
    Seconds::from_millis(millis)
}

#[test]
fn timer_fires_once_per_delay() {
    let mut t = Timer::from_seconds(at(1000), at(0));
    assert!(!t.tick_and_finished(at(500)));
    assert!(!t.tick_and_finished(at(1000)));
    assert!(t.tick_and_finished(at(1001)));
    assert!(!t.tick_and_finished(at(1500)));
    assert!(!t.tick_and_finished(at(2001)));
    assert!(t.tick_and_finished(at(2002)));
    assert_eq!(t.time, at(2002));
    assert_eq!(t.delay, at(1000));
}

#[test]
fn timer_fires_once_after_a_stall() {
    let mut t = Timer::from_seconds(at(100), at(0));
    assert!(t.tick_and_finished(at(10_000)));
    assert!(!t.tick_and_finished(at(10_000)));
    assert!(!t.tick_and_finished(at(10_100)));
    assert!(t.tick_and_finished(at(10_101)));
}

#[test]
fn timer_restart_starts_over() {
    let mut t = Timer::from_seconds(at(100), at(0));
    t.restart(at(500));
    assert!(!t.tick_and_finished(at(600)));
    assert!(t.tick_and_finished(at(601)));
}

#[test]
fn cooldown_available_at_start() {
    let c = Cooldown::from_seconds(at(300));
    assert!(c.available(at(0)));
    assert_eq!(c.available_time, at(0));
}

#[test]
fn cooldown_blocks_for_its_duration() {
    let mut c = Cooldown::from_seconds(at(300));
    c.start(at(1000));
    assert!(!c.available(at(1000)));
    assert!(!c.available(at(1299)));
    assert!(c.available(at(1300)));
    assert!(c.available(at(5000)));
}

#[test]
fn cooldown_reset_makes_it_available_at_once() {
    let mut c = Cooldown::from_seconds(at(300));
    c.start(at(1000));
    c.reset();
    assert!(c.available(at(1000)));
    assert!(c.available(at(0)));
    assert_eq!(c.duration, at(300));
}

#[test]
fn animation_round_trip() {
    let mut a = Animation::new(vec![4, 5, 6, 7], at(50), false, at(0));
    assert!(!a.is_finished());
    for (i, t) in [51u64, 102, 153, 204].iter().enumerate() {
        assert_eq!(a.current_frame, i);
        a.tick(at(*t));
    }
    assert!(a.is_finished());
    assert_eq!(a.current_frame, 4);
    a.tick(at(1000));
    assert_eq!(a.current_frame, 4);
    a.restart(at(1000));
    assert_eq!(a.current_frame, 0);
    assert!(!a.is_finished());
    assert_eq!(a.current_tile(), 4);
}

#[test]
fn animation_waits_for_its_frame_timer() {
    let mut a = Animation::new(vec![0, 1], at(100), false, at(0));
    a.tick(at(50));
    a.tick(at(100));
    assert_eq!(a.current_frame, 0);
    a.tick(at(101));
    assert_eq!(a.current_frame, 1);
    assert_eq!(a.current_tile(), 1);
}

#[test]
fn repeating_animation_starts_over() {
    let mut a = Animation::new(vec![0, 1, 2, 1], at(100), true, at(0));
    for t in [101u64, 202, 303] {
        a.tick(at(t));
    }
    assert_eq!(a.current_frame, 3);
    assert_eq!(a.current_tile(), 1);
    a.tick(at(404));
    assert_eq!(a.current_frame, 0);
    assert!(!a.is_finished());
    assert_eq!(a.frame_timer.time, at(404));
}

#[test]
fn spawn_delay_formula() {
    assert_eq!(spawn_delay_after_kill(at(0)), at(2000));
    assert_eq!(spawn_delay_after_kill(at(10_000)), at(666));
    assert_eq!(spawn_delay_after_kill(at(95_000)), at(100));
}

#[test]
fn spawn_delay_shrinks_over_time() {
    let mut previous = spawn_delay_after_kill(at(0)).millis;
    for t in (0..200_000u64).step_by(997) {
        let d = spawn_delay_after_kill(at(t)).millis;
        assert!(d <= previous);
        previous = d;
    }
}
