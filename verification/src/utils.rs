//! A blinker whose pauses grow between blinks (exponential back-off with a
//! random jitter), for indicator LEDs.

use embassy_time::{Duration, Instant};
use vstd::prelude::*;

verus! {

/// `embassy_time::Instant::now` read back as a tick count with
/// `Instant::as_ticks`. The result is the time driver's clock, so nothing is
/// stated of it. (The driver promises a clock that never runs backwards; that
/// relates two calls and is not stated either.)
#[verifier::external_body]
fn now_ticks() -> u64 {
    Instant::now().as_ticks()
}

/// Calls `read` once; the result is one that `read` can give.
fn read_once<F: Fn() -> u64>(read: F) -> (t: u64)
    requires
        call_requires(read, ()),
    ensures
        call_ensures(read, (), t),
{
    read()
}

/// `t` is a tick count that a reading of the clock ([`now_ticks`]) can give.
/// Nothing more is known of the clock; this ties a result to a reading taken
/// in the call rather than to any tick count.
pub closed spec fn clock_reading(t: u64) -> bool {
    call_ensures(now_ticks, (), t)
}

/// Reads the clock, remembering that the result is a clock reading.
fn read_clock() -> (t: u64)
    ensures
        clock_reading(t),
{
    read_once(now_ticks)
}

/// `embassy_time::Duration::from_ticks` read back in whole milliseconds with
/// `Duration::as_millis`, which computes
/// `ticks * (1000 / GCD_1K) / (TICK_HZ / GCD_1K)` with `GCD_1K = gcd(TICK_HZ, 1000)`.
/// The `std` feature of `embassy-time` that this crate enables selects
/// `tick-hz-1_000_000`, so `TICK_HZ` is 1 MHz, `GCD_1K` is 1000 and the
/// result is `ticks / 1000`, without overflow.
///
/// Comparing these milliseconds with an interval of `m` milliseconds gives the
/// same answer as comparing the `Duration` with `Duration::from_millis(m)`:
/// `t` ticks reach `ceil(m * TICK_HZ / 1000)` exactly when
/// `floor(t * 1000 / TICK_HZ)` reaches `m`.
#[verifier::external_body]
fn ticks_as_millis(ticks: u64) -> (ms: u64)
    ensures
        ms == ticks / 1000,
{
    Duration::from_ticks(ticks).as_millis()
}

/// The ticks from `earlier` to `now`. The driver's clock never runs
/// backwards, so `now < earlier` does not arise between two readings; it
/// counts as no time passed.
pub open spec fn spec_elapsed_ticks(now: u64, earlier: u64) -> u64 {
    if now >= earlier {
        (now - earlier) as u64
    } else {
        0
    }
}

fn elapsed_ticks(now: u64, earlier: u64) -> (t: u64)
    ensures
        t == spec_elapsed_ticks(now, earlier),
{
    if now >= earlier {
        now - earlier
    } else {
        0
    }
}

/// Where a [`BackoffBlinker`] draws its random numbers from.
pub trait RandomSource {
    fn random_u64(&self) -> u64;
}

fn draw_from<R: RandomSource>(rng: &R) -> u64 {
    rng.random_u64()
}

fn draw_once<A, F: Fn(A) -> u64>(draw: F, source: A) -> (r: u64)
    requires
        call_requires(draw, (source,)),
    ensures
        call_ensures(draw, (source,), r),
{
    draw(source)
}

/// `r` is a number that drawing from `rng` can give. Nothing more is known of
/// the random source; this ties a result to a number drawn in the call rather
/// than to any number.
pub closed spec fn drawable<R: RandomSource>(rng: R, r: u64) -> bool {
    call_ensures(draw_from::<R>, (&rng,), r)
}

/// Draws a number from `rng`, remembering that it is a drawable number.
fn draw<R: RandomSource>(rng: &R) -> (r: u64)
    ensures
        drawable(*rng, r),
{
    draw_once(draw_from::<R>, rng)
}

/// The pause after a blink: `random % base + base / 2` milliseconds, that is
/// a value in `[base / 2, base / 2 + base)`.
pub open spec fn spec_backoff_interval(random: u64, base: u64) -> int {
    random % base + base / 2
}

/// The base interval may be used for a pause without overflow.
pub open spec fn backoff_fits(base: u64) -> bool {
    0 < base && base - 1 + base / 2 <= u64::MAX
}

fn backoff_interval(random: u64, base: u64) -> (ms: u64)
    requires
        backoff_fits(base),
    ensures
        ms == spec_backoff_interval(random, base),
{
    random % base + base / 2
}

/// The number of milliseconds an LED stays lit.
pub open spec fn lit_interval() -> u64 {
    30
}

/// The plain state of a [`BackoffBlinker`]: the public fields and the two
/// intervals, in milliseconds.
pub struct BlinkerState {
    pub remaining: usize,
    pub index: usize,
    pub turn_on: bool,
    /// The base of the next pause; it grows by half with every blink.
    pub interval_c: u64,
    /// How long to wait before the next action.
    pub interval_ms: u64,
    /// The tick count at which the LED was last lit (or the blinker made).
    pub last_lit: u64,
}

impl BlinkerState {
    /// How many more actions the blinker will report: a blink is a turn-on
    /// followed by a turn-off.
    pub open spec fn pending_steps(self) -> nat {
        if self.remaining == 0 {
            0
        } else if self.turn_on {
            (2 * self.remaining - 1) as nat
        } else {
            (2 * self.remaining) as nat
        }
    }

    /// The next action can be computed without overflow.
    pub open spec fn can_advance(self) -> bool {
        if self.turn_on {
            backoff_fits(self.interval_c)
        } else {
            self.interval_c * 3 <= u64::MAX
        }
    }

    /// An action is due at tick count `now`: blinks are left and the current
    /// interval has run out since the LED was last lit.
    pub open spec fn due_at(self, now: u64) -> bool {
        self.remaining > 0 && spec_elapsed_ticks(now, self.last_lit) / 1000 >= self.interval_ms
    }

    /// The state after an action taken at tick count `now` when `random` is
    /// drawn: the step of [`BlinkerState::advanced`], and turning the LED on
    /// records `now` as the time it was lit.
    pub open spec fn acted_at(self, random: u64, now: u64) -> BlinkerState {
        if self.turn_on {
            self.advanced(random)
        } else {
            BlinkerState { last_lit: now, ..self.advanced(random) }
        }
    }

    /// The state after the next action, when `random` is drawn: turning the
    /// LED off ends a blink and starts a random pause; turning it on picks one
    /// of two LEDs, grows the base interval by half and keeps the LED lit for
    /// a fixed time.
    pub open spec fn advanced(self, random: u64) -> BlinkerState {
        if self.turn_on {
            BlinkerState {
                turn_on: false,
                interval_ms: spec_backoff_interval(random, self.interval_c) as u64,
                remaining: (self.remaining - 1) as usize,
                ..self
            }
        } else {
            BlinkerState {
                turn_on: true,
                index: (random % 2) as usize,
                interval_c: (self.interval_c * 3 / 2) as u64,
                interval_ms: lit_interval(),
                ..self
            }
        }
    }
}

/// Every action flips the LED and uses up exactly one of the actions left, so
/// a blinker made for `n` blinks acts at most `2 * n` times, and one with no
/// blinks left never acts.
pub proof fn lemma_action_budget(s: BlinkerState, random: u64)
    requires
        s.remaining > 0,
    ensures
        s.advanced(random).turn_on == !s.turn_on,
        s.advanced(random).pending_steps() + 1 == s.pending_steps(),
        s.pending_steps() > 0,
{
}

/// A blinker that has not started yet has two actions per blink left.
pub proof fn lemma_fresh_budget(s: BlinkerState)
    requires
        !s.turn_on,
    ensures
        s.pending_steps() == 2 * s.remaining,
{
}

/// Turning the LED on picks one of two LEDs and keeps it lit for the fixed
/// time.
pub proof fn lemma_turn_on(s: BlinkerState, random: u64)
    requires
        !s.turn_on,
    ensures
        s.advanced(random).index < 2,
        s.advanced(random).interval_ms == lit_interval(),
        s.advanced(random).remaining == s.remaining,
{
}

/// The pause after a blink lies in `[c / 2, c / 2 + c)` for the base `c`,
/// and every value there is the pause for some random number.
pub proof fn lemma_pause_range(s: BlinkerState, random: u64, ms: u64)
    requires
        s.turn_on,
        backoff_fits(s.interval_c),
    ensures
        s.interval_c / 2 <= s.advanced(random).interval_ms < s.interval_c / 2 + s.interval_c,
        s.interval_c / 2 <= ms < s.interval_c / 2 + s.interval_c ==> s.advanced(
            (ms - s.interval_c / 2) as u64,
        ).interval_ms == ms,
{
    let c = s.interval_c;
    assert(random % c < c);
    if c / 2 <= ms < c / 2 + c {
        let r = (ms - c / 2) as u64;
        assert(r % c == r) by {
            vstd::arithmetic::div_mod::lemma_small_mod(r as nat, c as nat);
        }
    }
}

/// An action is due exactly once the current interval has run out since the
/// LED was last lit: a blinker with blinks left acts at a reading `interval_ms`
/// milliseconds later, and not before.
pub proof fn lemma_due_when_interval_runs_out(s: BlinkerState, now: u64)
    requires
        s.remaining > 0,
        now >= s.last_lit,
    ensures
        now - s.last_lit >= s.interval_ms * 1000 ==> s.due_at(now),
        now - s.last_lit < s.interval_ms * 1000 ==> !s.due_at(now),
{
    let t = (now - s.last_lit) as int;
    let m = s.interval_ms as int;
    if t >= m * 1000 {
        assert(t / 1000 >= m) by (nonlinear_arith)
            requires
                t >= m * 1000,
                m >= 0,
        ;
    } else {
        assert(t / 1000 < m) by (nonlinear_arith)
            requires
                t < m * 1000,
                t >= 0,
        ;
    }
}

/// One action uses up a blink exactly when it turns the LED off, grows the
/// base interval by half exactly when it turns the LED on, and keeps the LED
/// index one of the two LEDs.
pub proof fn lemma_action_effects(s: BlinkerState, random: u64, now: u64)
    requires
        s.remaining > 0,
        s.can_advance(),
    ensures
        ({
            let t = s.acted_at(random, now);
            &&& t.remaining <= s.remaining
            &&& s.remaining - t.remaining <= 1
            &&& (t.remaining < s.remaining <==> s.turn_on)
            &&& t.interval_c == (if s.turn_on {
                s.interval_c as int
            } else {
                s.interval_c * 3 / 2
            })
            &&& s.index < 2 ==> t.index < 2
            &&& t.turn_on == !s.turn_on
            &&& t.pending_steps() + 1 == s.pending_steps()
        }),
{
}

/// One reading of the clock at tick count `now`, with `random` as the number
/// the random source would give: the blinker acts when an action is due, and
/// otherwise stays as it is. This is what [`BackoffBlinker::check_at`] does.
pub open spec fn step_at(s: BlinkerState, now: u64, random: u64) -> BlinkerState {
    if s.due_at(now) {
        s.acted_at(random, now)
    } else {
        s
    }
}

/// The state after a run of clock readings, each given with the number the
/// random source would give then.
pub open spec fn run(s: BlinkerState, steps: Seq<(u64, u64)>) -> BlinkerState
    decreases steps.len(),
{
    if steps.len() == 0 {
        s
    } else {
        step_at(run(s, steps.drop_last()), steps.last().0, steps.last().1)
    }
}

/// How many of the readings in a run make the blinker act.
pub open spec fn actions(s: BlinkerState, steps: Seq<(u64, u64)>) -> nat
    decreases steps.len(),
{
    if steps.len() == 0 {
        0
    } else {
        actions(s, steps.drop_last()) + if run(s, steps.drop_last()).due_at(steps.last().0) {
            1nat
        } else {
            0nat
        }
    }
}

/// Over any run of readings, the LED index stays one of the two LEDs, every
/// action flips the LED, and the actions taken and the actions left add up to
/// the actions left at the start: a blinker made for `n` blinks acts at most
/// `2 * n` times, and once none are left it never acts again.
pub proof fn lemma_run_budget(s: BlinkerState, steps: Seq<(u64, u64)>)
    ensures
        s.index < 2 ==> run(s, steps).index < 2,
        run(s, steps).turn_on == (s.turn_on != (actions(s, steps) % 2 == 1)),
        actions(s, steps) + run(s, steps).pending_steps() == s.pending_steps(),
        run(s, steps).pending_steps() == 0 <==> run(s, steps).remaining == 0,
    decreases steps.len(),
{
    if steps.len() > 0 {
        let dl = steps.drop_last();
        lemma_run_budget(s, dl);
        let t = run(s, dl);
        if t.due_at(steps.last().0) {
            lemma_action_budget(t, steps.last().1);
        }
    }
}

/// When the clock keeps advancing, so that every reading comes after the
/// interval under way has run out, a run acts at every reading until the
/// blinks are used up: it acts exactly `min(readings, actions left)` times.
/// For a fresh blinker made for `n` blinks, that is `2 * n` actions once
/// there are enough readings, after which no blinks are left.
pub proof fn lemma_run_exact(s: BlinkerState, steps: Seq<(u64, u64)>)
    requires
        forall|i: int|
            0 <= i < steps.len() && (#[trigger] run(s, steps.take(i))).remaining > 0 ==> run(
                s,
                steps.take(i),
            ).due_at(steps[i].0),
    ensures
        actions(s, steps) == if steps.len() < s.pending_steps() {
            steps.len()
        } else {
            s.pending_steps()
        },
    decreases steps.len(),
{
    lemma_run_budget(s, steps);
    if steps.len() > 0 {
        let k = steps.len() - 1;
        let dl = steps.drop_last();
        assert forall|i: int|
            0 <= i < dl.len() && (#[trigger] run(s, dl.take(i))).remaining > 0 implies run(
                s,
                dl.take(i),
            ).due_at(dl[i].0) by {
            assert(dl.take(i) =~= steps.take(i));
            assert(run(s, steps.take(i)).remaining > 0);
        }
        lemma_run_exact(s, dl);
        lemma_run_budget(s, dl);
        assert(steps.take(k) =~= dl);
        assert(run(s, steps.take(k)).remaining > 0 ==> run(s, steps.take(k)).due_at(steps[k].0));
    }
}

/// Turning the LED off keeps the LED index, so the LED turned off is the one
/// that was turned on; it uses up one blink, keeps the base interval and the
/// time the LED was lit, and starts a pause in `[c / 2, c / 2 + c)`.
pub proof fn lemma_turn_off(s: BlinkerState, random: u64)
    requires
        s.turn_on,
        s.remaining > 0,
        backoff_fits(s.interval_c),
    ensures
        !s.advanced(random).turn_on,
        s.advanced(random).index == s.index,
        s.advanced(random).remaining == s.remaining - 1,
        s.advanced(random).interval_c == s.interval_c,
        s.advanced(random).last_lit == s.last_lit,
        s.interval_c / 2 <= s.advanced(random).interval_ms < s.interval_c / 2 + s.interval_c,
{
    assert(random % s.interval_c < s.interval_c);
}

/// An LED turned on at reading `lit` stays lit for exactly the lit time: a
/// later reading turns it off only once 30 ms (30_000 ticks) have passed
/// since `lit`, and does turn it off then.
pub proof fn lemma_lit_for_lit_interval(s: BlinkerState, random: u64, lit: u64, later: u64)
    requires
        !s.turn_on,
        s.remaining > 0,
        s.due_at(lit),
        lit <= later,
    ensures
        s.acted_at(random, lit).turn_on,
        later - lit < 30_000 ==> !s.acted_at(random, lit).due_at(later),
        later - lit >= 30_000 ==> s.acted_at(random, lit).due_at(later),
{
    let t = s.acted_at(random, lit);
    assert(t.last_lit == lit && t.interval_ms == 30 && t.remaining == s.remaining);
    lemma_due_when_interval_runs_out(t, later);
}

/// A whole blink (on, then off) uses up one blink, grows the base interval
/// by half and ends in a pause drawn from the grown base.
pub proof fn lemma_full_blink(s: BlinkerState, on: u64, off: u64)
    requires
        !s.turn_on,
        s.remaining > 0,
        s.can_advance(),
        s.advanced(on).can_advance(),
    ensures
        ({
            let t = s.advanced(on).advanced(off);
            &&& !t.turn_on
            &&& t.remaining == s.remaining - 1
            &&& t.index < 2
            &&& t.interval_c == s.interval_c * 3 / 2
            &&& t.interval_ms == spec_backoff_interval(off, t.interval_c)
        }),
{
}

#[non_exhaustive]
pub struct BackoffBlinker<'a, R: RandomSource> {
    rng: &'a R,
    last_lit: u64,
    interval_c: u64,
    interval_ms: u64,
    pub remaining: usize,
    pub index: usize,
    pub turn_on: bool,
}

impl<'a, R: RandomSource> View for BackoffBlinker<'a, R> {
    type V = BlinkerState;

    closed spec fn view(&self) -> BlinkerState {
        BlinkerState {
            remaining: self.remaining,
            index: self.index,
            turn_on: self.turn_on,
            interval_c: self.interval_c,
            interval_ms: self.interval_ms,
            last_lit: self.last_lit,
        }
    }
}

impl<'a, R: RandomSource> BackoffBlinker<'a, R> {
    /// Whether an action is due once `elapsed_ms` milliseconds have passed
    /// since the LED was last lit.
    pub open spec fn spec_is_due(&self, elapsed_ms: u64) -> bool {
        self@.remaining > 0 && elapsed_ms >= self@.interval_ms
    }

    /// The random source.
    pub closed spec fn spec_rng(&self) -> R {
        *self.rng
    }

    /// A blinker for `num_blinks` blinks whose start time is the tick count
    /// `now`; the first pause is drawn from the base of 100 milliseconds.
    pub fn new_at(rng: &'a R, num_blinks: usize, now: u64) -> (b: Self)
        ensures
            b@.remaining == num_blinks,
            b@.index == 0,
            !b@.turn_on,
            b@.interval_c == 100,
            50 <= b@.interval_ms < 150,
            exists|r: u64| drawable(*rng, r) && b@.interval_ms == #[trigger] spec_backoff_interval(r, 100),
            b@.last_lit == now,
            b.spec_rng() == *rng,
    {
        let interval_c: u64 = 100;
        let random = draw(rng);
        let interval = backoff_interval(random, interval_c);
        Self {
            rng,
            last_lit: now,
            interval_c,
            interval_ms: interval,
            remaining: num_blinks,
            index: 0,
            turn_on: false,
        }
    }

    /// A blinker for `num_blinks` blinks; the first pause is drawn from the
    /// base of 100 milliseconds, and the clock is read as the starting time.
    pub fn new(rng: &'a R, num_blinks: usize) -> (b: Self)
        ensures
            b@.remaining == num_blinks,
            b@.index == 0,
            !b@.turn_on,
            b@.interval_c == 100,
            50 <= b@.interval_ms < 150,
            exists|r: u64| drawable(*rng, r) && b@.interval_ms == #[trigger] spec_backoff_interval(r, 100),
            clock_reading(b@.last_lit),
            b.spec_rng() == *rng,
    {
        let now = read_clock();
        Self::new_at(rng, num_blinks, now)
    }

    /// Sets the base of the pauses between blinks, in milliseconds; the pause
    /// already under way is kept.
    pub fn initial_interval_ms(&mut self, interval: u64) -> (b: &mut Self)
        ensures
            b@ == (BlinkerState { interval_c: interval, ..old(self)@ }),
            b.spec_rng() == old(self).spec_rng(),
            *final(self) == *final(b),
    {
        self.interval_c = interval;
        self
    }

    /// The current waiting interval, in milliseconds.
    pub fn interval_ms(&self) -> (ms: u64)
        ensures
            ms == self@.interval_ms,
    {
        self.interval_ms
    }

    /// Whether an action is due once `elapsed_ms` milliseconds have passed
    /// since the LED was last lit: blinks are left and the current interval
    /// has run out.
    pub fn is_due(&self, elapsed_ms: u64) -> (due: bool)
        ensures
            due == self.spec_is_due(elapsed_ms),
    {
        self.remaining > 0 && elapsed_ms >= self.interval_ms
    }

    /// Performs the step that an action takes, with `random` as the number
    /// drawn from the random source; recording the time the LED was lit is
    /// left to the caller.
    pub fn advance(&mut self, random: u64)
        requires
            old(self)@.remaining > 0,
            old(self)@.can_advance(),
        ensures
            final(self)@ == old(self)@.advanced(random),
            final(self).spec_rng() == old(self).spec_rng(),
            final(self)@.turn_on == !old(self)@.turn_on,
            final(self)@.last_lit == old(self)@.last_lit,
            old(self)@.turn_on ==> {
                &&& final(self)@.index == old(self)@.index
                &&& final(self)@.remaining == old(self)@.remaining - 1
                &&& final(self)@.interval_c == old(self)@.interval_c
                &&& old(self)@.interval_c / 2 <= final(self)@.interval_ms
                &&& final(self)@.interval_ms < old(self)@.interval_c / 2 + old(self)@.interval_c
                &&& final(self)@.interval_ms == random % old(self)@.interval_c + old(self)@.interval_c / 2
            },
            !old(self)@.turn_on ==> {
                &&& final(self)@.index == random % 2
                &&& final(self)@.remaining == old(self)@.remaining
                &&& final(self)@.interval_c == old(self)@.interval_c * 3 / 2
                &&& final(self)@.interval_ms == 30
            },
    {
        if self.turn_on {
            self.turn_on = false;
            self.interval_ms = backoff_interval(random, self.interval_c);
            self.remaining = self.remaining - 1;
        } else {
            self.turn_on = true;
            self.index = (random % 2) as usize;
            self.interval_c = self.interval_c * 3 / 2;
            self.interval_ms = 30;
        }
    }

    /// What [`BackoffBlinker::check`] does once the clock reads `now` ticks:
    /// acts exactly when an action is due then, and when it turns the LED on,
    /// records `now` as the time it was lit.
    pub fn check_at(&mut self, now: u64) -> (acted: bool)
        requires
            old(self)@.due_at(now) ==> old(self)@.can_advance(),
        ensures
            acted == old(self)@.due_at(now),
            !acted ==> *final(self) == *old(self),
            acted ==> exists|random: u64| final(self)@ == #[trigger] old(self)@.acted_at(random, now),
            acted ==> exists|random: u64|
                drawable(old(self).spec_rng(), random) && final(self)@ == #[trigger] old(
                    self,
                )@.acted_at(random, now),
            exists|random: u64| final(self)@ == #[trigger] step_at(old(self)@, now, random),
            acted && !old(self)@.turn_on ==> final(self)@.last_lit == now,
            !(acted && !old(self)@.turn_on) ==> final(self)@.last_lit == old(self)@.last_lit,
            final(self).spec_rng() == old(self).spec_rng(),
    {
        let elapsed_ms = ticks_as_millis(elapsed_ticks(now, self.last_lit));
        if self.is_due(elapsed_ms) {
            let was_on = self.turn_on;
            let random = draw(self.rng);
            self.advance(random);
            if !was_on {
                self.last_lit = now;
            }
            assert(self@ == old(self)@.acted_at(random, now));
            assert(self@ == step_at(old(self)@, now, random));
            return true;
        }
        assert(self@ == step_at(old(self)@, now, 0));
        false
    }

    /// Checks whether it's time to do any blinking action.
    /// The user should check properties `turn_on` and `index` to determine what to do.
    /// If `turn_on` is true, the user should turn on an indicator LED for the `index`.
    ///
    /// The clock is read once, when blinks are left; that reading decides
    /// whether the interval has run out and is recorded as the time the LED
    /// is lit.
    pub fn check(&mut self) -> (acted: bool)
        requires
            old(self)@.remaining > 0 ==> old(self)@.can_advance(),
        ensures
            !acted ==> *final(self) == *old(self),
            old(self)@.remaining == 0 ==> !acted,
            old(self)@.remaining > 0 && old(self)@.interval_ms == 0 ==> acted,
            exists|now: u64|
                #![trigger old(self)@.due_at(now)]
                acted == old(self)@.due_at(now) && (acted ==> exists|random: u64|
                    final(self)@ == #[trigger] old(self)@.acted_at(random, now)),
            acted ==> final(self)@.turn_on == !old(self)@.turn_on,
            acted ==> final(self)@.pending_steps() + 1 == old(self)@.pending_steps(),
            final(self)@.remaining <= old(self)@.remaining,
            old(self)@.remaining - final(self)@.remaining <= 1,
            final(self)@.remaining < old(self)@.remaining <==> acted && old(self)@.turn_on,
            final(self)@.interval_c == (if acted && !old(self)@.turn_on {
                old(self)@.interval_c * 3 / 2
            } else {
                old(self)@.interval_c as int
            }),
            old(self)@.index < 2 ==> final(self)@.index < 2,
            old(self)@.remaining > 0 ==> exists|now: u64|
                #![trigger clock_reading(now)]
                clock_reading(now) && acted == old(self)@.due_at(now) && (acted ==> exists|
                    random: u64,
                |
                    drawable(old(self).spec_rng(), random) && final(self)@ == #[trigger] old(
                        self,
                    )@.acted_at(random, now)),
            final(self).spec_rng() == old(self).spec_rng(),
    {
        if self.remaining == 0 {
            proof {
                assert(!old(self)@.due_at(0));
            }
            return false;
        }
        let now = read_clock();
        let acted = self.check_at(now);
        proof {
            if acted {
                let random = choose|random: u64| self@ == #[trigger] old(self)@.acted_at(random, now);
                lemma_action_effects(old(self)@, random, now);
            }
            if old(self)@.interval_ms == 0 {
                assert(old(self)@.due_at(now));
            }
        }
        acted
    }
}

} // verus!
