use std::cell::Cell;
use std::time::{Duration, Instant};

use analog3::utils::{BackoffBlinker, RandomSource};

/// Hands out the given numbers in turn, repeating the last one.
struct Script {
    values: Vec<u64>,
    next: Cell<usize>,
}

impl Script {
    fn new(values: &[u64]) -> Self {
        Script { values: values.to_vec(), next: Cell::new(0) }
    }

    fn drawn(&self) -> usize {
        self.next.get()
    }
}

impl RandomSource for Script {
    fn random_u64(&self) -> u64 {
        let i = self.next.get();
        self.next.set(i + 1);
        self.values[i.min(self.values.len() - 1)]
    }
}

/// Calls `check` until it acts; fails after five seconds.
fn wait_for_action<R: RandomSource>(b: &mut BackoffBlinker<'_, R>) {
    let start = Instant::now();
    while !b.check() {
        assert!(start.elapsed() < Duration::from_secs(5), "the blinker never acted");
    }
}

#[test]
fn new_draws_the_first_pause() {
    let rng = Script::new(&[7]);
    let b = BackoffBlinker::new(&rng, 3);
    assert_eq!(b.remaining, 3);
    assert_eq!(b.index, 0);
    assert!(!b.turn_on);
    assert_eq!(b.interval_ms(), 7 % 100 + 50);
    assert_eq!(rng.drawn(), 1);

    let rng = Script::new(&[u64::MAX]);
    let b = BackoffBlinker::new(&rng, 1);
    assert_eq!(b.interval_ms(), u64::MAX % 100 + 50);
}

#[test]
fn check_waits_for_the_interval() {
    let rng = Script::new(&[99]);
    let mut b = BackoffBlinker::new(&rng, 1);
    assert_eq!(b.interval_ms(), 149);
    assert!(!b.check());
    assert!(!b.turn_on);
    assert_eq!(b.remaining, 1);
    assert_eq!(rng.drawn(), 1);
}

#[test]
fn check_without_blinks_never_acts() {
    let rng = Script::new(&[0]);
    let mut b = BackoffBlinker::new(&rng, 0);
    let start = Instant::now();
    while start.elapsed() < Duration::from_millis(120) {
        assert!(!b.check());
    }
    assert!(!b.turn_on);
    assert_eq!(rng.drawn(), 1);
}

#[test]
fn one_blink_turns_on_then_off() {
    // first pause 0 % 100 + 50, LED index 3 % 2, pause after the blink 10 % 150 + 75
    let rng = Script::new(&[0, 3, 10]);
    let mut b = BackoffBlinker::new(&rng, 1);
    assert_eq!(b.interval_ms(), 50);

    wait_for_action(&mut b);
    assert!(b.turn_on);
    assert_eq!(b.index, 1);
    assert_eq!(b.remaining, 1);
    assert_eq!(b.interval_ms(), 30);

    wait_for_action(&mut b);
    assert!(!b.turn_on);
    assert_eq!(b.index, 1);
    assert_eq!(b.remaining, 0);
    assert_eq!(b.interval_ms(), 10 % 150 + 75);
    assert_eq!(rng.drawn(), 3);

    assert!(!b.check());
}

#[test]
fn blinker_acts_twice_per_blink() {
    let rng = Script::new(&[0]);
    let mut b = BackoffBlinker::new(&rng, 2);
    let mut actions = 0;
    let start = Instant::now();
    while start.elapsed() < Duration::from_millis(800) {
        if b.check() {
            actions += 1;
            assert_eq!(b.turn_on, actions % 2 == 1);
        }
    }
    assert_eq!(actions, 4);
    assert_eq!(b.remaining, 0);
    assert!(!b.turn_on);
}

#[test]
fn advance_turns_on() {
    let rng = Script::new(&[0]);
    let mut b = BackoffBlinker::new(&rng, 2);
    b.advance(5);
    assert!(b.turn_on);
    assert_eq!(b.index, 1);
    assert_eq!(b.remaining, 2);
    assert_eq!(b.interval_ms(), 30);
    b.advance(4);
    assert!(!b.turn_on);
    assert_eq!(b.index, 1);
    assert_eq!(b.remaining, 1);
    // the base grew from 100 to 150
    assert_eq!(b.interval_ms(), 4 % 150 + 75);
    b.advance(6);
    assert!(b.turn_on);
    assert_eq!(b.index, 0);
    b.advance(1000);
    assert_eq!(b.remaining, 0);
    // the base grew from 150 to 225
    assert_eq!(b.interval_ms(), 1000 % 225 + 112);
}

#[test]
fn initial_interval_sets_the_base() {
    let rng = Script::new(&[0]);
    let mut b = BackoffBlinker::new(&rng, 1);
    b.initial_interval_ms(1000).advance(0);
    assert!(b.turn_on);
    b.advance(10);
    assert_eq!(b.interval_ms(), 10 % 1500 + 750);
}

#[test]
fn initial_interval_keeps_the_current_pause() {
    let rng = Script::new(&[20]);
    let mut b = BackoffBlinker::new(&rng, 1);
    b.initial_interval_ms(400);
    assert_eq!(b.interval_ms(), 70);
    assert_eq!(b.remaining, 1);
    assert!(!b.turn_on);
}

#[test]
fn is_due_needs_blinks_and_time() {
    let rng = Script::new(&[7]);
    let mut b = BackoffBlinker::new(&rng, 1);
    assert_eq!(b.interval_ms(), 57);
    assert!(!b.is_due(0));
    assert!(!b.is_due(56));
    assert!(b.is_due(57));
    assert!(b.is_due(u64::MAX));
    b.remaining = 0;
    assert!(!b.is_due(57));
    assert!(!b.is_due(u64::MAX));
}

const T0: u64 = 1 << 62;

#[test]
fn check_at_acts_exactly_when_the_interval_runs_out() {
    // pause 7 % 100 + 50 = 57 ms, LED 3 % 2, then pause 10 % 150 + 75 = 85 ms
    let rng = Script::new(&[7, 3, 10]);
    let mut b = BackoffBlinker::new(&rng, 1);
    assert_eq!(b.interval_ms(), 57);

    // far past the start: the first pause has run out
    assert!(b.check_at(T0));
    assert!(b.turn_on);
    assert_eq!(b.index, 1);
    assert_eq!(b.interval_ms(), 30);

    // measured from T0, the time the LED was lit: 30 ms = 30_000 ticks
    assert!(!b.check_at(T0));
    assert!(!b.check_at(T0 + 29_999));
    assert!(b.turn_on);
    assert!(b.check_at(T0 + 30_000));
    assert!(!b.turn_on);
    assert_eq!(b.remaining, 0);
    assert_eq!(b.interval_ms(), 85);

    // no blinks left: never due again
    assert!(!b.check_at(u64::MAX));
    assert_eq!(rng.drawn(), 3);
}

#[test]
fn check_at_counts_from_the_turn_on_not_the_turn_off() {
    let rng = Script::new(&[0]);
    let mut b = BackoffBlinker::new(&rng, 2);
    assert!(b.check_at(T0));
    assert!(b.check_at(T0 + 30_000));
    // the pause of 0 % 150 + 75 ms runs from T0, when the LED was lit
    assert_eq!(b.interval_ms(), 75);
    assert!(!b.check_at(T0 + 74_999));
    assert!(b.check_at(T0 + 75_000));
    assert!(b.turn_on);
    assert_eq!(b.remaining, 1);
}

#[test]
fn check_at_a_reading_before_the_last_counts_as_no_time() {
    let rng = Script::new(&[0]);
    let mut b = BackoffBlinker::new(&rng, 1);
    assert!(b.check_at(T0));
    assert!(!b.check_at(0));
    assert!(b.turn_on);
}

#[test]
fn zero_interval_always_acts() {
    // base 1: after a blink the pause is 0 % 1 + 0 = 0 ms
    let rng = Script::new(&[0]);
    let mut b = BackoffBlinker::new(&rng, 3);
    b.initial_interval_ms(1);
    assert!(b.check_at(T0));
    assert!(b.check_at(T0 + 30_000));
    assert_eq!(b.interval_ms(), 0);
    assert!(b.check());
    assert!(b.turn_on);
}

#[test]
fn new_at_records_the_start() {
    let rng = Script::new(&[7]);
    let mut b = BackoffBlinker::new_at(&rng, 2, 1_000_000);
    assert_eq!(b.remaining, 2);
    assert_eq!(b.index, 0);
    assert!(!b.turn_on);
    assert_eq!(b.interval_ms(), 57);
    // the first pause of 57 ms counts from tick 1_000_000
    assert!(!b.check_at(1_056_999));
    assert!(b.check_at(1_057_000));
    assert!(b.turn_on);
}

#[test]
fn run_with_late_readings_acts_twice_per_blink() {
    let rng = Script::new(&[0]);
    let mut b = BackoffBlinker::new_at(&rng, 3, 0);
    let mut now = 0u64;
    let mut actions = 0;
    for _ in 0..20 {
        now += 1_000_000; // one second: every interval has run out
        if b.check_at(now) {
            actions += 1;
            assert_eq!(b.turn_on, actions % 2 == 1);
            assert!(b.index < 2);
        }
    }
    assert_eq!(actions, 6);
    assert_eq!(b.remaining, 0);
    assert!(!b.turn_on);
}
