//! The game core: a snake simulation driven by a fixed-interval clock.
//! Elapsed-time deltas go in, whole simulation ticks come out; key presses
//! become direction requests. Rendering reads the segment chain through
//! the snake accessor and never mutates it.

use vstd::prelude::*;
use crate::clock::{ClockState, SimulationClock};
use crate::direction::Direction;
use crate::snake::{
    Snake, SnakeState, after_ticks, lemma_margin_step, request_transition, tick_transition,
};

verus! {

/// Mathematical model of the game core: the snake simulation state and
/// the clock state.
#[verifier::ext_equal]
pub ghost struct AppState {
    pub snake: SnakeState,
    pub clock: ClockState,
}

impl AppState {
    /// Both components satisfy their own invariants.
    pub open spec fn wf(self) -> bool {
        &&& self.snake.wf()
        &&& self.clock.wf()
    }
}

/// Number of whole ticks that `delta` more time units release from a
/// clock in state `c`.
pub open spec fn pending_ticks(c: ClockState, delta: int) -> int {
    (c.tick_accumulator + delta) / c.tick_length
}

/// The game core: the simulated snake and the clock that paces it. The
/// rendering backend lives outside this crate and only polls positions.
pub struct App {
    snake: Snake,
    clock: SimulationClock,
}

impl View for App {
    type V = AppState;

    closed spec fn view(&self) -> AppState {
        AppState { snake: self.snake@, clock: self.clock@ }
    }
}

impl App {
    /// A fresh game over the given snake, with a clock of the given
    /// positive tick interval.
    pub fn new(tick_length: u64, snake: Snake) -> (a: App)
        requires
            tick_length >= 1,
            snake@.wf(),
        ensures
            a@.snake == snake@,
            a@.clock == (ClockState {
                time: 0,
                tick_accumulator: 0,
                tick_length: tick_length as int,
            }),
            a@.wf(),
    {
        App { snake, clock: SimulationClock::new(tick_length) }
    }

    /// Read-only access to the snake, polled by the renderer once per
    /// frame.
    pub fn snake(&self) -> (s: &Snake)
        ensures
            s@ == self@.snake,
    {
        &self.snake
    }

    /// Read-only access to the clock.
    pub fn clock(&self) -> (c: &SimulationClock)
        ensures
            c@ == self@.clock,
    {
        &self.clock
    }

    /// Feed `delta` more elapsed time units to the clock and advance the
    /// snake by exactly the number of whole ticks released, returning that
    /// number. The snake must have coordinate room for that many steps.
    pub fn update(&mut self, delta: u64) -> (ticks: u64)
        requires
            old(self)@.wf(),
            old(self)@.clock.time + delta <= u64::MAX,
            old(self)@.snake.within_margin(pending_ticks(old(self)@.clock, delta as int)),
        ensures
            final(self)@.wf(),
            ticks == pending_ticks(old(self)@.clock, delta as int),
            final(self)@.clock.tick_length == old(self)@.clock.tick_length,
            final(self)@.clock.time == old(self)@.clock.time + delta,
            final(self)@.clock.tick_accumulator == (old(self)@.clock.tick_accumulator + delta) % old(
                self,
            )@.clock.tick_length,
            final(self)@.snake == after_ticks(old(self)@.snake, ticks as nat),
    {
        let ghost s0 = self@.snake;
        let n = self.clock.advance(delta);
        let ghost c1 = self@.clock;
        let mut i: u64 = 0;
        while i < n
            invariant
                i <= n,
                self@.clock == c1,
                self@.snake == after_ticks(s0, i as nat),
                self@.snake.wf(),
                self@.snake.within_margin(n - i),
            decreases n - i,
        {
            proof {
                lemma_margin_step(self@.snake, n - i);
            }
            self.snake.advance();
            i = i + 1;
            proof {
                assert(after_ticks(s0, i as nat) == tick_transition(after_ticks(s0, (i - 1) as nat)));
            }
        }
        n
    }

    /// Record a direction key press: the first request of the current tick
    /// window turns the head unless it asks for an exact reversal; later
    /// requests in the same window are ignored.
    pub fn key(&mut self, d: Direction)
        requires
            old(self)@.wf(),
        ensures
            final(self)@.wf(),
            final(self)@.clock == old(self)@.clock,
            final(self)@.snake == request_transition(old(self)@.snake, d),
    {
        self.snake.request_direction(d);
    }
}

} // verus!
