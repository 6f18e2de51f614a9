//! Laws of the simulation, stated over the mathematical model and proved
//! once and for all: movement and contiguity under any run of ticks,
//! rejection of exact reversals, and the one-input-per-tick debounce.

use vstd::prelude::*;
use crate::direction::{Direction, lemma_opposite_involutive, opposite, step_x, step_y};
use crate::snake::{
    SnakeState, after_ticks, lemma_tick_preserves_wf, request_transition, tick_transition,
};

verus! {

/// With no input, one tick moves every segment exactly one grid unit in
/// its own pre-tick direction, and the chain stays contiguous: the whole
/// simulation invariant holds again after the tick.
pub proof fn lemma_tick_moves_each_segment_one_unit(s: SnakeState)
    requires
        s.wf(),
    ensures
        tick_transition(s).wf(),
        tick_transition(s).segs.len() == s.segs.len(),
        forall|i: int|
            0 <= i < s.segs.len() ==> (#[trigger] tick_transition(s).segs[i]).x == s.segs[i].x
                + step_x(s.segs[i].direction) && tick_transition(s).segs[i].y
                == s.segs[i].y + step_y(s.segs[i].direction),
{
    lemma_tick_preserves_wf(s);
}

/// Under any number of ticks with no input, the simulation invariant — in
/// particular chain contiguity — keeps holding.
pub proof fn lemma_ticks_preserve_invariant(s: SnakeState, n: nat)
    requires
        s.wf(),
    ensures
        after_ticks(s, n).wf(),
        after_ticks(s, n).segs.len() == s.segs.len(),
    decreases n,
{
    if n > 0 {
        lemma_ticks_preserve_invariant(s, (n - 1) as nat);
        lemma_tick_preserves_wf(after_ticks(s, (n - 1) as nat));
    }
}

/// Direction propagation is one-tick-delayed: during a tick every non-head
/// segment still moves in its own pre-tick direction; the direction it
/// inherits from its leader moves it only on the following tick.
pub proof fn lemma_propagation_one_tick_delayed(s: SnakeState, i: int)
    requires
        s.wf(),
        0 <= i < s.segs.len() - 1,
    ensures
        tick_transition(s).segs[i].x == s.segs[i].x + step_x(
            s.segs[i].direction,
        ),
        tick_transition(s).segs[i].y == s.segs[i].y + step_y(
            s.segs[i].direction,
        ),
        after_ticks(s, 2).segs[i].x == tick_transition(s).segs[i].x + step_x(
            s.segs[i + 1].direction,
        ),
        after_ticks(s, 2).segs[i].y == tick_transition(s).segs[i].y + step_y(
            s.segs[i + 1].direction,
        ),
{
    assert(after_ticks(s, 0) == s);
    assert(after_ticks(s, 1) == tick_transition(s));
    assert(after_ticks(s, 2) == tick_transition(tick_transition(s)));
}

/// Requesting the exact opposite of the head's current direction never
/// changes anything about the chain: the head keeps its direction and
/// every segment stays as it was.
pub proof fn lemma_reversal_request_rejected(s: SnakeState, d: Direction)
    requires
        s.wf(),
        d == opposite(s.head_direction()),
    ensures
        request_transition(s, d).head_direction() == s.head_direction(),
        request_transition(s, d).segs =~= s.segs,
{
    lemma_opposite_involutive(s.head_direction());
}

/// At most one direction change is consumed per tick window: once any
/// request has been made, every further request before the next tick
/// leaves the state exactly as it was after the first.
pub proof fn lemma_at_most_one_request_per_tick(s: SnakeState, d1: Direction, d2: Direction)
    ensures
        request_transition(request_transition(s, d1), d2) == request_transition(s, d1),
{
}

/// Idempotence of rejection: issuing an illegal reversal request twice in
/// the same tick window has exactly the effect of issuing it once, and
/// that effect leaves the chain untouched.
pub proof fn lemma_rejection_idempotent(s: SnakeState, d: Direction)
    requires
        s.wf(),
        d == opposite(s.head_direction()),
    ensures
        request_transition(request_transition(s, d), d) == request_transition(s, d),
        request_transition(s, d).segs =~= s.segs,
        request_transition(s, d).head_direction() == s.head_direction(),
{
    lemma_reversal_request_rejected(s, d);
    lemma_at_most_one_request_per_tick(s, d, d);
}

} // verus!
