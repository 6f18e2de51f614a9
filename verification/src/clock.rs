//! The simulation clock: it accumulates elapsed time and releases one tick
//! for every whole tick interval that has passed. Time is counted in whole
//! units (the caller picks the unit, for example milliseconds); the tick
//! interval is fixed when the clock is built.
//!
//! On overflow of the accumulator the tick interval is subtracted rather
//! than the accumulator reset to zero, so the remainder is carried into
//! the next tick window and no elapsed time is ever lost.

use vstd::prelude::*;
use vstd::arithmetic::div_mod::lemma_fundamental_div_mod_converse;
use vstd::arithmetic::mul::lemma_mul_inequality;

verus! {

/// Mathematical model of the clock: total elapsed time, time accumulated
/// since the last released tick, and the fixed tick interval.
#[verifier::ext_equal]
pub ghost struct ClockState {
    pub time: int,
    pub tick_accumulator: int,
    pub tick_length: int,
}

impl ClockState {
    /// Clock invariant: a positive tick interval, an accumulator strictly
    /// below it, and an accumulator no larger than the representable total
    /// elapsed time.
    pub open spec fn wf(self) -> bool {
        &&& self.tick_length >= 1
        &&& 0 <= self.tick_accumulator < self.tick_length
        &&& self.tick_accumulator <= self.time
        &&& self.time <= u64::MAX
    }
}

/// Converts a stream of elapsed-time deltas into discrete tick events at a
/// fixed interval.
pub struct SimulationClock {
    time: u64,
    tick_accumulator: u64,
    tick_length: u64,
}

impl View for SimulationClock {
    type V = ClockState;

    closed spec fn view(&self) -> ClockState {
        ClockState {
            time: self.time as int,
            tick_accumulator: self.tick_accumulator as int,
            tick_length: self.tick_length as int,
        }
    }
}

impl SimulationClock {
    /// A fresh clock with the given positive tick interval, no elapsed
    /// time and an empty accumulator.
    pub fn new(tick_length: u64) -> (c: SimulationClock)
        requires
            tick_length >= 1,
        ensures
            c@ == (ClockState { time: 0, tick_accumulator: 0, tick_length: tick_length as int }),
            c@.wf(),
    {
        SimulationClock { time: 0, tick_accumulator: 0, tick_length }
    }

    /// Total elapsed time the clock has seen, in time units.
    pub fn time(&self) -> (t: u64)
        ensures
            t == self@.time,
    {
        self.time
    }

    /// Time accumulated since the last released tick, in time units.
    pub fn tick_accumulator(&self) -> (a: u64)
        ensures
            a == self@.tick_accumulator,
    {
        self.tick_accumulator
    }

    /// The fixed tick interval, in time units.
    pub fn tick_length(&self) -> (l: u64)
        ensures
            l == self@.tick_length,
    {
        self.tick_length
    }

    /// Accumulate `delta` more time units and release one tick for every
    /// whole tick interval now covered: exactly the quotient of the filled
    /// accumulator by the tick interval, with the remainder carried over
    /// so no time is lost.
    pub fn advance(&mut self, delta: u64) -> (ticks: u64)
        requires
            old(self)@.wf(),
            old(self)@.time + delta <= u64::MAX,
        ensures
            final(self)@.wf(),
            final(self)@.tick_length == old(self)@.tick_length,
            final(self)@.time == old(self)@.time + delta,
            ticks == (old(self)@.tick_accumulator + delta) / old(self)@.tick_length,
            final(self)@.tick_accumulator == (old(self)@.tick_accumulator + delta) % old(
                self,
            )@.tick_length,
            ticks * old(self)@.tick_length + final(self)@.tick_accumulator == old(
                self,
            )@.tick_accumulator + delta,
    {
        let ghost total = old(self)@.tick_accumulator + delta;
        self.time = self.time + delta;
        self.tick_accumulator = self.tick_accumulator + delta;
        let mut ticks: u64 = 0;
        while self.tick_accumulator >= self.tick_length
            invariant
                self@.tick_length == old(self)@.tick_length,
                self@.tick_length >= 1,
                self@.time == old(self)@.time + delta,
                self@.time <= u64::MAX,
                0 <= self@.tick_accumulator,
                self@.tick_accumulator + ticks * self@.tick_length == total,
                0 <= ticks * self@.tick_length <= total,
                total <= u64::MAX,
            decreases self@.tick_accumulator,
        {
            proof {
                assert((ticks + 1) * self@.tick_length == ticks * self@.tick_length
                    + self@.tick_length) by (nonlinear_arith);
                lemma_mul_inequality(1, self@.tick_length, ticks as int + 1);
            }
            self.tick_accumulator = self.tick_accumulator - self.tick_length;
            ticks = ticks + 1;
        }
        proof {
            lemma_fundamental_div_mod_converse(
                total,
                self@.tick_length,
                ticks as int,
                self@.tick_accumulator,
            );
        }
        ticks
    }
}

} // verus!
