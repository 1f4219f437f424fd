//! The simulation clock: a repeating timer with a fixed period, advanced by
//! the wall-clock time of each frame and counted in whole nanoseconds.

use bevy::time::{Timer, TimerMode};
use std::time::Duration;
use vstd::prelude::*;

verus! {

/// Period of the clock when the host chooses none: 0.07 s.
pub const DEFAULT_PERIOD_NANOS: u64 = 70_000_000;

/// What a repeating timer keeps of `total` nanoseconds once every whole
/// period has been taken out of it. A timer without a period keeps nothing.
pub open spec fn wrapped(period: nat, total: nat) -> nat {
    if period == 0 {
        0
    } else {
        total % period
    }
}

/// The clock as contracts see it.
pub struct ClockState {
    pub period: nat,
    pub elapsed: nat,
    pub completed: bool,
}

impl ClockState {
    /// A clock that has not been advanced yet.
    pub open spec fn fresh(period: nat) -> ClockState {
        ClockState { period, elapsed: 0, completed: false }
    }

    /// The clock after one more frame of `delta` nanoseconds.
    pub open spec fn tick(self, delta: nat) -> ClockState {
        ClockState {
            period: self.period,
            elapsed: wrapped(self.period, self.elapsed + delta),
            completed: self.elapsed + delta >= self.period,
        }
    }

    /// The clock after `frames` frames of `delta` nanoseconds each.
    pub open spec fn after(self, delta: nat, frames: nat) -> ClockState
        decreases frames,
    {
        if frames == 0 {
            self
        } else {
            self.after(delta, (frames - 1) as nat).tick(delta)
        }
    }

    /// The clock never holds a whole period.
    pub open spec fn well_formed(self) -> bool {
        self.elapsed == wrapped(self.period, self.elapsed)
    }
}

/// How many of the first `frames` frames of `delta` nanoseconds each ended
/// with a period run out.
pub open spec fn completions(clock: ClockState, delta: nat, frames: nat) -> nat
    decreases frames,
{
    if frames == 0 {
        0
    } else {
        completions(clock, delta, (frames - 1) as nat) + if clock.after(delta, frames).completed {
            1nat
        } else {
            0nat
        }
    }
}

/// A periodic timer that reports, after each tick, whether a period ran out
/// during that tick. The time beyond the period is carried into the next one.
#[derive(Clone, Copy, Debug)]
pub struct SimulationClock {
    period_nanos: u64,
    elapsed_nanos: u64,
    completed: bool,
}

impl View for SimulationClock {
    type V = ClockState;

    closed spec fn view(&self) -> ClockState {
        ClockState {
            period: self.period_nanos as nat,
            elapsed: self.elapsed_nanos as nat,
            completed: self.completed,
        }
    }
}

/// One tick of a repeating `bevy::time::Timer`, on plain numbers.
///
/// The body makes a repeating timer of the given period with `Timer::new`,
/// puts `elapsed` nanoseconds on it with `Timer::set_elapsed`, advances it
/// by `delta` nanoseconds with `Timer::tick`, and hands back what
/// `Timer::elapsed` and `Timer::finished` then say. None of this is proved;
/// the contract states what the source of the timer shows:
///
/// - `tick` adds `delta` to the elapsed time. The sum of two `u64` counts of
///   nanoseconds is far below what a `Duration` holds, so the addition does
///   not overflow.
/// - The timer is finished if and only if the sum has reached the period.
/// - A finished repeating timer keeps the remainder of the sum modulo the
///   period, or nothing where the period is zero; an unfinished one keeps
///   the sum, which is then its own remainder.
#[verifier::external_body]
fn repeating_timer_tick(period: u64, elapsed: u64, delta: u64) -> (r: (u64, bool))
    ensures
        r.0 as nat == wrapped(period as nat, (elapsed + delta) as nat),
        r.1 == (elapsed + delta >= period),
{
    let mut timer = Timer::new(Duration::from_nanos(period), TimerMode::Repeating);
    timer.set_elapsed(Duration::from_nanos(elapsed));
    timer.tick(Duration::from_nanos(delta));
    (timer.elapsed().as_nanos() as u64, timer.finished())
}

impl SimulationClock {
    #[verifier::type_invariant]
    spec fn holds_no_whole_period(&self) -> bool {
        self@.well_formed()
    }

    /// A clock of the given period with no time on it.
    pub fn new(period_nanos: u64) -> (clock: SimulationClock)
        ensures
            clock@ == ClockState::fresh(period_nanos as nat),
            clock@.well_formed(),
    {
        SimulationClock { period_nanos, elapsed_nanos: 0, completed: false }
    }

    /// Advances the clock by the duration of one frame.
    pub fn tick(&mut self, delta_nanos: u64)
        ensures
            final(self)@ == old(self)@.tick(delta_nanos as nat),
            final(self)@.well_formed(),
    {
        let (elapsed, completed): (u64, bool) = repeating_timer_tick(
            self.period_nanos,
            self.elapsed_nanos,
            delta_nanos,
        );
        proof {
            lemma_tick_is_well_formed(self@, delta_nanos as nat);
        }
        self.elapsed_nanos = elapsed;
        self.completed = completed;
    }

    /// Whether a period ran out during the most recent tick.
    pub fn just_completed(&self) -> (completed: bool)
        ensures
            completed == self@.completed,
    {
        self.completed
    }

    /// The period in nanoseconds.
    pub fn period_nanos(&self) -> (period: u64)
        ensures
            period == self@.period,
    {
        self.period_nanos
    }

    /// The time into the running period in nanoseconds. It never amounts to
    /// a whole period.
    pub fn elapsed_nanos(&self) -> (elapsed: u64)
        ensures
            elapsed == self@.elapsed,
            self@.well_formed(),
    {
        proof {
            use_type_invariant(self);
        }
        self.elapsed_nanos
    }
}

impl Default for SimulationClock {
    /// A clock of the default period with no time on it.
    fn default() -> (clock: SimulationClock)
        ensures
            clock@ == ClockState::fresh(DEFAULT_PERIOD_NANOS as nat),
    {
        SimulationClock::new(DEFAULT_PERIOD_NANOS)
    }
}

/// A tick leaves less than a period on the clock, whatever it held before.
pub proof fn lemma_tick_is_well_formed(clock: ClockState, delta: nat)
    ensures
        clock.tick(delta).well_formed(),
{
    if clock.period > 0 {
        vstd::arithmetic::div_mod::lemma_mod_twice(
            (clock.elapsed + delta) as int,
            clock.period as int,
        );
    }
}

/// With frames no longer than the period, the time on the clock is the
/// total time modulo the period, and the periods that ran out are the whole
/// periods in the total time: none is lost and none is counted twice.
pub proof fn lemma_completions_are_whole_periods(clock: ClockState, delta: nat, frames: nat)
    requires
        clock.period > 0,
        clock.elapsed < clock.period,
        delta <= clock.period,
    ensures
        clock.after(delta, frames).period == clock.period,
        clock.after(delta, frames).elapsed == (clock.elapsed + frames * delta) % clock.period,
        completions(clock, delta, frames) == (clock.elapsed + frames * delta) / clock.period,
    decreases frames,
{
    let period = clock.period as int;
    if frames == 0 {
        assert(frames * delta == 0) by (nonlinear_arith)
            requires
                frames == 0,
        ;
        vstd::arithmetic::div_mod::lemma_fundamental_div_mod_converse(
            clock.elapsed as int,
            period,
            0,
            clock.elapsed as int,
        );
    } else {
        let earlier = (frames - 1) as nat;
        lemma_completions_are_whole_periods(clock, delta, earlier);
        let total_before = (clock.elapsed + earlier * delta) as int;
        let total = (clock.elapsed + frames * delta) as int;
        assert(total == total_before + delta) by (nonlinear_arith)
            requires
                total_before == clock.elapsed + earlier * delta,
                total == clock.elapsed + frames * delta,
                earlier == frames - 1,
        ;
        let quotient = total_before / period;
        let rest = total_before % period;
        vstd::arithmetic::div_mod::lemma_fundamental_div_mod(total_before, period);
        vstd::arithmetic::mul::lemma_mul_is_commutative(period, quotient);
        vstd::arithmetic::div_mod::lemma_mod_bound(total_before, period);
        if rest + delta < period {
            vstd::arithmetic::div_mod::lemma_fundamental_div_mod_converse(
                total,
                period,
                quotient,
                rest + delta,
            );
            vstd::arithmetic::div_mod::lemma_small_mod((rest + delta) as nat, period as nat);
        } else {
            assert((quotient + 1) * period == quotient * period + period) by (nonlinear_arith);
            vstd::arithmetic::div_mod::lemma_fundamental_div_mod_converse(
                total,
                period,
                quotient + 1,
                rest + delta - period,
            );
            vstd::arithmetic::div_mod::lemma_fundamental_div_mod_converse(
                rest + delta,
                period,
                1,
                rest + delta - period,
            );
        }
    }
}

/// With frames no longer than the period, the periods that ran out in
/// `frames` frames differ from the whole periods in `frames * delta` by at
/// most the one that the time already on the clock completes early. On a
/// fresh clock the two are equal.
pub proof fn lemma_completions_within_one(clock: ClockState, delta: nat, frames: nat)
    requires
        clock.period > 0,
        clock.elapsed < clock.period,
        delta <= clock.period,
    ensures
        (frames * delta) / clock.period <= completions(clock, delta, frames) <= (frames * delta)
            / clock.period + 1,
        clock.elapsed == 0 ==> completions(clock, delta, frames) == (frames * delta)
            / clock.period,
{
    lemma_completions_are_whole_periods(clock, delta, frames);
    let period = clock.period as int;
    let run = (frames * delta) as int;
    assert(run >= 0) by (nonlinear_arith)
        requires
            run == frames * delta,
    ;
    vstd::arithmetic::div_mod::lemma_div_is_ordered(run, run + clock.elapsed, period);
    vstd::arithmetic::div_mod::lemma_div_is_ordered(run + clock.elapsed, run + period, period);
    vstd::arithmetic::div_mod::lemma_div_plus_one(run, period);
}

/// With frames at least as long as the period, a period runs out on every
/// frame, however many whole periods a frame holds.
pub proof fn lemma_long_frames_complete_every_tick(clock: ClockState, delta: nat, frames: nat)
    requires
        delta >= clock.period,
    ensures
        clock.after(delta, frames).period == clock.period,
        completions(clock, delta, frames) == frames,
    decreases frames,
{
    if frames > 0 {
        lemma_long_frames_complete_every_tick(clock, delta, (frames - 1) as nat);
    }
}

} // verus!
