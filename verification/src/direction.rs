//! Travel directions on the grid and the direction-conflict rule.

use vstd::prelude::*;

verus! {

/// A compass direction in which a segment travels, one grid unit per tick.
#[derive(Clone, Copy, PartialEq, Eq, Structural, Debug)]
pub enum Direction {
    Up,
    Down,
    Left,
    Right,
}

/// The exact 180-degree reversal of a direction.
pub open spec fn opposite(d: Direction) -> Direction {
    match d {
        Direction::Up => Direction::Down,
        Direction::Down => Direction::Up,
        Direction::Left => Direction::Right,
        Direction::Right => Direction::Left,
    }
}

/// Horizontal displacement of one step in direction `d`.
pub open spec fn step_x(d: Direction) -> int {
    match d {
        Direction::Left => -1,
        Direction::Right => 1,
        _ => 0,
    }
}

/// Vertical displacement of one step in direction `d` (up decreases `y`).
pub open spec fn step_y(d: Direction) -> int {
    match d {
        Direction::Up => -1,
        Direction::Down => 1,
        _ => 0,
    }
}

/// Direction-conflict resolution: a request for the exact opposite of the
/// current direction is rejected and the current direction retained; any
/// other request is honoured.
pub open spec fn resolve(current: Direction, requested: Direction) -> Direction {
    if requested == opposite(current) {
        current
    } else {
        requested
    }
}

/// No direction is its own opposite, and taking the opposite twice gives
/// the original direction back.
pub proof fn lemma_opposite_involutive(d: Direction)
    ensures
        opposite(d) != d,
        opposite(opposite(d)) == d,
{
}

/// Whatever is requested, the resolved direction is never the reversal of
/// the current one.
pub proof fn lemma_resolve_never_reverses(current: Direction, requested: Direction)
    ensures
        resolve(current, requested) != opposite(current),
{
    lemma_opposite_involutive(current);
}

} // verus!
