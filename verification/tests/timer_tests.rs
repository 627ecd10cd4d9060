use snake::Timer;
use std::time::{Duration, Instant};

const HOUR: u128 = 3_600_000_000_000;

/// Lets the clock run on for the given number of milliseconds.
fn wait(millis: u64) {
    let began = Instant::now();
    while began.elapsed() < Duration::from_millis(millis) {
        std::hint::spin_loop();
    }
}

#[test]
fn zero_interval_is_complete_at_once() {
    assert!(Timer::new(0, true).complete);
    assert!(Timer::new(0, false).complete);
}

#[test]
fn other_intervals_start_running() {
    let t = Timer::new(170_000_000, true);
    assert!(!t.complete);
    assert!(t.loopable);
    assert_eq!(t.duration, 170_000_000);
    assert!(!Timer::new(1, false).complete);
}

#[test]
fn complete_timer_that_loops_restarts_and_says_no() {
    let mut t = Timer::new(0, true);
    let before = t.start;
    wait(2);
    assert!(!t.poll());
    assert!(!t.complete);
    assert!(t.start > before);
}

#[test]
fn zero_interval_loop_alternates() {
    let mut t = Timer::new(0, true);
    for _ in 0..5 {
        assert!(!t.poll());
        assert!(t.poll());
    }
}

#[test]
fn complete_timer_that_does_not_loop_keeps_saying_yes() {
    let mut t = Timer::new(0, false);
    let start = t.start;
    for _ in 0..5 {
        assert!(t.poll());
        assert!(t.complete);
        assert_eq!(t.start, start);
    }
}

#[test]
fn running_timer_says_no_before_the_interval_is_over() {
    let mut t = Timer::new(HOUR, true);
    let start = t.start;
    for _ in 0..5 {
        assert!(!t.poll());
        assert!(!t.complete);
        assert_eq!(t.start, start);
    }
}

#[test]
fn running_timer_says_yes_once_the_interval_is_over() {
    let mut t = Timer::new(5_000_000, false);
    wait(20);
    assert!(t.poll());
    assert!(t.complete);
    assert!(t.poll());
}

#[test]
fn loop_gives_one_yes_per_interval() {
    let mut t = Timer::new(5_000_000, true);
    wait(20);
    assert!(t.poll());
    // The tick restarts the timer, and the new interval is not over yet.
    t.duration = HOUR;
    assert!(!t.poll());
    assert!(!t.complete);
    assert!(!t.poll());
}

#[test]
fn observe_compares_with_the_interval() {
    let mut t = Timer::new(100, true);
    assert!(!t.observe(0));
    assert!(!t.complete);
    assert!(!t.observe(99));
    assert!(!t.complete);
    assert!(t.observe(100));
    assert!(t.complete);
    assert!(t.observe(u128::MAX));
    assert!(!t.observe(5));
    assert!(!t.complete);
    assert_eq!(t.duration, 100);
    assert!(t.loopable);
}

#[test]
fn restart_begins_a_new_interval() {
    let mut t = Timer::new(0, false);
    assert!(t.complete);
    let now = Instant::now();
    t.restart(now);
    assert!(!t.complete);
    assert_eq!(t.start, now);
    assert_eq!(t.duration, 0);
    assert!(!t.loopable);
}
