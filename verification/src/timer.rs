//! The repeating timer that paces the game: it lets one tick through each
//! time a fixed interval has run out.

use vstd::prelude::*;
use vstd::arithmetic::div_mod::{lemma_mod_sub_multiples_vanish, lemma_small_mod};

verus! {

/// One second, in the nanoseconds that the timer counts.
pub const SECOND: u64 = 1_000_000_000;

/// What a timer is, apart from how it is stored.
pub struct TimerView {
    /// The length of the interval.
    pub period: nat,
    /// How much of the current interval has passed.
    pub elapsed: nat,
}

impl TimerView {
    /// The time that `delta` adds completes the current interval.
    pub open spec fn fires(self, delta: nat) -> bool {
        self.elapsed + delta >= self.period
    }

    /// The timer after `delta` has passed: time left over from a completed
    /// interval counts towards the next. However many intervals `delta`
    /// spans, what is left is less than one interval.
    pub open spec fn after(self, delta: nat) -> TimerView {
        TimerView {
            period: self.period,
            elapsed: if self.period == 0 {
                0
            } else {
                (self.elapsed + delta) % self.period
            },
        }
    }
}

/// A repeating timer with a fixed interval.
#[derive(Clone, Copy, Debug)]
pub struct UpdateTimer {
    period: u64,
    elapsed: u64,
}

impl View for UpdateTimer {
    type V = TimerView;

    closed spec fn view(&self) -> TimerView {
        TimerView { period: self.period as nat, elapsed: self.elapsed as nat }
    }
}

impl UpdateTimer {
    #[verifier::type_invariant]
    spec fn within_interval(self) -> bool {
        self.elapsed < self.period || (self.period == 0 && self.elapsed == 0)
    }

    /// A timer that fires every `period` nanoseconds, with nothing elapsed
    /// yet. With a period of zero it fires whenever it is asked.
    pub fn new(period: u64) -> (timer: Self)
        ensures
            timer@ == (TimerView { period: period as nat, elapsed: 0 }),
    {
        UpdateTimer { period, elapsed: 0 }
    }

    /// The length of the interval in nanoseconds.
    pub fn period(&self) -> (period: u64)
        ensures
            period == self@.period,
    {
        self.period
    }

    /// The nanoseconds that have passed of the current interval.
    pub fn elapsed(&self) -> (elapsed: u64)
        ensures
            elapsed == self@.elapsed,
            self@.period > 0 ==> elapsed < self@.period,
    {
        proof {
            use_type_invariant(self);
        }
        self.elapsed
    }

    /// Lets `delta` nanoseconds pass and tells whether the interval has
    /// just run out. It says so once, however many intervals `delta` spans.
    pub fn tick(&mut self, delta: u64) -> (just_finished: bool)
        ensures
            just_finished == old(self)@.fires(delta as nat),
            final(self)@ == old(self)@.after(delta as nat),
    {
        proof {
            use_type_invariant(&*self);
        }
        if self.period == 0 {
            return true;
        }
        let remaining: u64 = self.period - self.elapsed;
        if delta < remaining {
            proof {
                lemma_small_mod((self.elapsed + delta) as nat, self.period as nat);
            }
            self.elapsed = self.elapsed + delta;
            false
        } else {
            proof {
                lemma_mod_sub_multiples_vanish(self.elapsed + delta, self.period as int);
            }
            self.elapsed = (delta - remaining) % self.period;
            true
        }
    }
}

impl Default for UpdateTimer {
    /// A timer that fires once a second.
    fn default() -> (timer: Self)
        ensures
            timer@ == (TimerView { period: SECOND as nat, elapsed: 0 }),
    {
        UpdateTimer::new(SECOND)
    }
}

} // verus!
