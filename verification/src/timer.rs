//! The tick scheduler: an elapsed-time accumulator with a fixed period,
//! advanced by a caller-supplied delta each frame. A once timer fires a
//! single time; a repeating timer fires on every crossing of its period and
//! carries the remainder, so the simulation rate stays decoupled from the
//! frame rate. Pausing freezes the accumulator.

use vstd::arithmetic::div_mod::lemma_add_mod_noop_right;
use vstd::arithmetic::div_mod::lemma_mod_sub_multiples_vanish;
use vstd::arithmetic::div_mod::lemma_small_mod;
use vstd::prelude::*;

verus! {

#[derive(Clone, Copy, Debug, PartialEq, Eq, Structural)]
pub enum TimerMode {
    /// Fires once, then stays finished until reset.
    Once,
    /// Fires on every crossing of the period.
    Repeating,
}

/// An elapsed-time accumulator with a fixed period, in milliseconds.
#[derive(Clone, Copy, Debug, PartialEq, Eq, Structural)]
pub struct TickTimer {
    /// The fixed interval between firings.
    pub period_ms: u64,
    /// Time accumulated since the last firing (or since the start).
    pub elapsed_ms: u64,
    pub mode: TimerMode,
    /// While paused, `tick` accumulates nothing and never fires.
    pub paused: bool,
    /// Set once a `Once` timer has fired; it then never fires again.
    pub finished: bool,
}

impl TickTimer {
    pub open spec fn wf(self) -> bool {
        &&& self.period_ms >= 1
        &&& (self.finished ==> self.mode == TimerMode::Once && self.elapsed_ms
            == self.period_ms)
        &&& (!self.finished ==> self.elapsed_ms < self.period_ms)
    }

    /// Whether advancing by `delta_ms` crosses the period threshold.
    pub open spec fn spec_fires(self, delta_ms: u64) -> bool {
        &&& !self.paused
        &&& !self.finished
        &&& delta_ms >= self.period_ms - self.elapsed_ms
    }

    /// The timer state after advancing by `delta_ms`.
    pub open spec fn spec_tick(self, delta_ms: u64) -> TickTimer {
        if self.paused || self.finished {
            self
        } else if delta_ms < self.period_ms - self.elapsed_ms {
            TickTimer { elapsed_ms: (self.elapsed_ms + delta_ms) as u64, ..self }
        } else if self.mode == TimerMode::Once {
            TickTimer { elapsed_ms: self.period_ms, finished: true, ..self }
        } else {
            TickTimer {
                elapsed_ms: ((self.elapsed_ms + delta_ms) % (self.period_ms as int)) as u64,
                ..self
            }
        }
    }

    pub fn new(period_ms: u64, mode: TimerMode) -> (t: TickTimer)
        requires
            period_ms >= 1,
        ensures
            t.wf(),
            t == (TickTimer {
                period_ms,
                elapsed_ms: 0,
                mode,
                paused: false,
                finished: false,
            }),
    {
        TickTimer { period_ms, elapsed_ms: 0, mode, paused: false, finished: false }
    }

    /// Advance the accumulator by `delta_ms` and report whether the period
    /// threshold was crossed. A paused or finished timer does not advance.
    pub fn tick(&mut self, delta_ms: u64) -> (fired: bool)
        requires
            old(self).wf(),
        ensures
            final(self).wf(),
            fired == old(self).spec_fires(delta_ms),
            *final(self) == old(self).spec_tick(delta_ms),
    {
        if self.paused || self.finished {
            return false;
        }
        let remaining = self.period_ms - self.elapsed_ms;
        if delta_ms < remaining {
            self.elapsed_ms = self.elapsed_ms + delta_ms;
            false
        } else {
            match self.mode {
                TimerMode::Once => {
                    self.elapsed_ms = self.period_ms;
                    self.finished = true;
                },
                TimerMode::Repeating => {
                    let carry = delta_ms % self.period_ms;
                    proof {
                        lemma_add_mod_noop_right(
                            self.elapsed_ms as int,
                            delta_ms as int,
                            self.period_ms as int,
                        );
                        if carry >= remaining {
                            lemma_mod_sub_multiples_vanish(
                                self.elapsed_ms + carry,
                                self.period_ms as int,
                            );
                            lemma_small_mod(
                                (self.elapsed_ms + carry - self.period_ms) as nat,
                                self.period_ms as nat,
                            );
                        } else {
                            lemma_small_mod(
                                (self.elapsed_ms + carry) as nat,
                                self.period_ms as nat,
                            );
                        }
                    }
                    if carry >= remaining {
                        self.elapsed_ms = carry - remaining;
                    } else {
                        self.elapsed_ms = self.elapsed_ms + carry;
                    }
                },
            }
            true
        }
    }

    /// Freeze the accumulator: while paused, `tick` is a no-op.
    pub fn pause(&mut self)
        ensures
            *final(self) == (TickTimer { paused: true, ..*old(self) }),
    {
        self.paused = true;
    }

    /// Let the accumulator advance again from where it stopped.
    pub fn unpause(&mut self)
        ensures
            *final(self) == (TickTimer { paused: false, ..*old(self) }),
    {
        self.paused = false;
    }

    /// Start the countdown over from zero, running.
    pub fn reset(&mut self)
        requires
            old(self).wf(),
        ensures
            final(self).wf(),
            *final(self) == (TickTimer { elapsed_ms: 0, paused: false, finished: false, ..*old(self) }),
    {
        self.elapsed_ms = 0;
        self.paused = false;
        self.finished = false;
    }
}

} // verus!
