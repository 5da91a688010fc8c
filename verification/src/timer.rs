//! The one-shot timer that runs between the explosion and the return to the
//! menu.

use bevy::time::{Timer, TimerMode};
use std::time::Duration;
use vstd::prelude::*;

verus! {

/// How long the explosion shows before the menu comes back: one second, in
/// nanoseconds.
pub const EXPLOSION_NANOS: u64 = 1_000_000_000;

/// A timer that fires once: the time it has run and the time it runs for, in
/// nanoseconds. It fires on the tick that brings the first up to the second,
/// and is then done with.
#[derive(Clone, Copy, Debug, PartialEq, Eq, Structural)]
pub struct OnceTimer {
    pub elapsed: u64,
    pub duration: u64,
}

/// One tick of a `bevy::time::Timer` in `TimerMode::Once` that runs for
/// `duration` nanoseconds and has run for `elapsed` of them: the time it has
/// run after `delta` more nanoseconds, and whether it finished on this tick.
///
/// Trusted. The timer is made by `Timer::new` and `Timer::set_elapsed`,
/// ticked by `Timer::tick`, and read by `Timer::elapsed` and
/// `Timer::just_finished`. What is claimed of them, from bevy's source: the
/// tick adds `delta` to the elapsed time; the timer finishes on the tick on
/// which that reaches the duration, and the elapsed time then stops at the
/// duration.
#[verifier::external_body]
fn tick_once(elapsed: u64, duration: u64, delta: u64) -> (after: (u64, bool))
    ensures
        after.1 == (elapsed + delta >= duration),
        after.0 == if elapsed + delta >= duration {
            duration as int
        } else {
            elapsed + delta
        },
{
    let mut timer = Timer::new(Duration::from_nanos(duration), TimerMode::Once);
    timer.set_elapsed(Duration::from_nanos(elapsed));
    timer.tick(Duration::from_nanos(delta));
    (timer.elapsed().as_nanos() as u64, timer.just_finished())
}

impl OnceTimer {
    /// A timer that has not run yet.
    pub open spec fn spec_start(duration: u64) -> OnceTimer {
        OnceTimer { elapsed: 0, duration }
    }

    /// The time left until the timer fires.
    pub open spec fn spec_remaining(self) -> int {
        self.duration - self.elapsed
    }

    /// Whether a tick of `delta` nanoseconds makes the timer fire.
    pub open spec fn fires(self, delta: u64) -> bool {
        delta >= self.spec_remaining()
    }

    /// The timer after a tick of `delta` nanoseconds: `None` once it has
    /// fired.
    pub open spec fn ticked(self, delta: u64) -> Option<OnceTimer> {
        if self.fires(delta) {
            None
        } else {
            Some(OnceTimer { elapsed: (self.elapsed + delta) as u64, duration: self.duration })
        }
    }

    pub fn start(duration: u64) -> (timer: OnceTimer)
        ensures
            timer == OnceTimer::spec_start(duration),
    {
        OnceTimer { elapsed: 0, duration }
    }

    /// The time left until the timer fires; zero for a timer that is overdue.
    pub fn remaining(&self) -> (left: u64)
        ensures
            left == if self.spec_remaining() >= 0 {
                self.spec_remaining()
            } else {
                0
            },
    {
        if self.duration >= self.elapsed {
            self.duration - self.elapsed
        } else {
            0
        }
    }

    /// Advances the timer by `delta` nanoseconds. `None` says that it fired:
    /// there is no timer any more.
    pub fn tick(self, delta: u64) -> (next: Option<OnceTimer>)
        ensures
            next == self.ticked(delta),
    {
        let (elapsed, fired) = tick_once(self.elapsed, self.duration, delta);
        if fired {
            None
        } else {
            Some(OnceTimer { elapsed, duration: self.duration })
        }
    }
}

/// The sum of a run of tick lengths.
pub open spec fn total(deltas: Seq<u64>) -> int
    decreases deltas.len(),
{
    if deltas.len() == 0 {
        0
    } else {
        deltas[0] + total(deltas.drop_first())
    }
}

/// How often a timer fires over a run of ticks, given that a timer that has
/// fired is gone.
pub open spec fn fire_count(timer: Option<OnceTimer>, deltas: Seq<u64>) -> nat
    decreases deltas.len(),
{
    if deltas.len() == 0 {
        0
    } else {
        match timer {
            None => 0,
            Some(t) => (if t.fires(deltas[0]) {
                1nat
            } else {
                0nat
            }) + fire_count(t.ticked(deltas[0]), deltas.drop_first()),
        }
    }
}

/// What is left of a timer after a run of ticks.
pub open spec fn after_ticks(timer: Option<OnceTimer>, deltas: Seq<u64>) -> Option<OnceTimer>
    decreases deltas.len(),
{
    if deltas.len() == 0 {
        timer
    } else {
        match timer {
            None => None,
            Some(t) => after_ticks(t.ticked(deltas[0]), deltas.drop_first()),
        }
    }
}

/// Without a timer nothing fires.
pub proof fn lemma_no_timer_never_fires(deltas: Seq<u64>)
    ensures
        fire_count(None, deltas) == 0,
        after_ticks(None, deltas) is None,
{
}

/// A timer fires exactly once, on reaching its duration, and never again: over
/// any run of ticks it fires once if the ticks add up to the time that was
/// left, and not at all if they do not. It is gone exactly when it has fired.
pub proof fn lemma_fires_exactly_once(timer: OnceTimer, deltas: Seq<u64>)
    ensures
        fire_count(Some(timer), deltas) == if deltas.len() > 0 && total(deltas)
            >= timer.spec_remaining() {
            1nat
        } else {
            0nat
        },
        after_ticks(Some(timer), deltas) is None <==> fire_count(Some(timer), deltas) == 1,
        fire_count(Some(timer), deltas) <= 1,
    decreases deltas.len(),
{
    if deltas.len() > 0 {
        let rest = deltas.drop_first();
        lemma_total_not_negative(rest);
        match timer.ticked(deltas[0]) {
            None => {
                lemma_no_timer_never_fires(rest);
            },
            Some(next) => {
                lemma_fires_exactly_once(next, rest);
            },
        }
    }
}

/// A run of tick lengths never adds up to less than nothing.
pub proof fn lemma_total_not_negative(deltas: Seq<u64>)
    ensures
        total(deltas) >= 0,
    decreases deltas.len(),
{
    if deltas.len() > 0 {
        lemma_total_not_negative(deltas.drop_first());
    }
}

} // verus!
