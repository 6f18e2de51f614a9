//! The snake simulation: an ordered chain of body segments on an integer
//! grid. Each tick every segment moves one grid unit in its own direction,
//! then every non-head segment inherits the pre-tick direction of the
//! segment ahead of it, so the chain follows the head's path one tick
//! behind. Player input sets the head's direction at most once per tick
//! window and never to the exact reversal of its current direction.

use vstd::prelude::*;
use crate::direction::{Direction, opposite, resolve, step_x, step_y};
use crate::direction::{lemma_opposite_involutive, lemma_resolve_never_reverses};

verus! {

/// Mathematical model of one body segment: an unbounded grid position and
/// the direction the segment currently travels.
pub ghost struct Seg {
    pub x: int,
    pub y: int,
    pub direction: Direction,
}

/// Mathematical model of the whole simulation state: the segments in
/// storage order (the head is the last element) and the debounce flag that
/// records whether a direction request has already been consumed in the
/// current tick window.
#[verifier::ext_equal]
pub ghost struct SnakeState {
    pub segs: Seq<Seg>,
    pub input_consumed: bool,
}

impl SnakeState {
    /// The direction of the head, the segment driven by player input: the
    /// last element of the stored sequence.
    pub open spec fn head_direction(self) -> Direction {
        self.segs[self.segs.len() - 1].direction
    }

    /// Segment `i + 1` sits exactly one step, in segment `i`'s own travel
    /// direction, ahead of segment `i`: after the next tick, segment `i`
    /// lands exactly where segment `i + 1` stands now.
    pub open spec fn contiguous_at(self, i: int) -> bool {
        &&& self.segs[i + 1].x == self.segs[i].x + step_x(self.segs[i].direction)
        &&& self.segs[i + 1].y == self.segs[i].y + step_y(self.segs[i].direction)
    }

    /// The chain is connected: every consecutive pair of segments is
    /// orthogonally adjacent, one grid unit apart.
    pub open spec fn contiguous(self) -> bool {
        forall|i: int| 0 <= i < self.segs.len() - 1 ==> #[trigger] self.contiguous_at(i)
    }

    /// The segment ahead does not travel the exact reversal of the segment
    /// behind it, which would drive it back into its follower.
    pub open spec fn no_reversal_at(self, i: int) -> bool {
        self.segs[i + 1].direction != opposite(self.segs[i].direction)
    }

    /// No two adjacent segments hold opposite directions.
    pub open spec fn no_reversals(self) -> bool {
        forall|i: int| 0 <= i < self.segs.len() - 1 ==> #[trigger] self.no_reversal_at(i)
    }

    /// While no input has been consumed in the current tick window, the
    /// head and the segment right behind it travel alike: ticks leave them
    /// equal, and a direction request is resolved against that shared
    /// direction before it marks the window's input as consumed.
    pub open spec fn head_pair_aligned(self) -> bool {
        (!self.input_consumed && self.segs.len() >= 2) ==> self.segs[self.segs.len()
            - 2].direction == self.head_direction()
    }

    /// Simulation-state invariant: at least one segment, a connected
    /// chain, no adjacent reversals, and an aligned head pair whenever no
    /// input has been consumed yet in the current tick window.
    pub open spec fn wf(self) -> bool {
        &&& self.segs.len() >= 1
        &&& self.contiguous()
        &&& self.no_reversals()
        &&& self.head_pair_aligned()
    }

    /// One step from segment `i`'s position stays within the machine range
    /// of `i32` coordinates.
    pub open spec fn can_step_at(self, i: int) -> bool {
        &&& i32::MIN <= self.segs[i].x + step_x(self.segs[i].direction) <= i32::MAX
        &&& i32::MIN <= self.segs[i].y + step_y(self.segs[i].direction) <= i32::MAX
    }

    /// Every segment can take one step without leaving the `i32` range.
    pub open spec fn can_step(self) -> bool {
        forall|i: int| 0 <= i < self.segs.len() ==> #[trigger] self.can_step_at(i)
    }

    /// Segment `i` sits at least `m` grid units away from every edge of
    /// the `i32` coordinate range.
    pub open spec fn within_margin_at(self, i: int, m: int) -> bool {
        &&& i32::MIN + m <= self.segs[i].x <= i32::MAX - m
        &&& i32::MIN + m <= self.segs[i].y <= i32::MAX - m
    }

    /// Every segment has room for `m` more steps in any direction before
    /// its coordinates could leave the `i32` range.
    pub open spec fn within_margin(self, m: int) -> bool {
        forall|i: int| 0 <= i < self.segs.len() ==> #[trigger] self.within_margin_at(i, m)
    }
}

/// A segment after moving one grid unit in its own direction.
pub open spec fn moved(s: Seg) -> Seg {
    Seg { x: s.x + step_x(s.direction), y: s.y + step_y(s.direction), direction: s.direction }
}

/// The effect of one tick: every segment moves one unit in its own
/// pre-tick direction; every non-head segment then takes the pre-tick
/// direction of the segment ahead of it; the next tick window accepts
/// input again.
pub open spec fn tick_transition(s: SnakeState) -> SnakeState {
    SnakeState {
        segs: Seq::new(
            s.segs.len(),
            |i: int|
                Seg {
                    x: moved(s.segs[i]).x,
                    y: moved(s.segs[i]).y,
                    direction: if i + 1 < s.segs.len() {
                        s.segs[i + 1].direction
                    } else {
                        s.segs[i].direction
                    },
                },
        ),
        input_consumed: false,
    }
}

/// The effect of one direction request: nothing if an input was already
/// consumed this tick window; otherwise the head's direction becomes the
/// resolved direction and the input counts as consumed, whether or not
/// the request was honoured.
pub open spec fn request_transition(s: SnakeState, d: Direction) -> SnakeState {
    if s.input_consumed {
        s
    } else {
        SnakeState {
            segs: s.segs.update(
                s.segs.len() - 1,
                Seg {
                    x: s.segs[s.segs.len() - 1].x,
                    y: s.segs[s.segs.len() - 1].y,
                    direction: resolve(s.head_direction(), d),
                },
            ),
            input_consumed: true,
        }
    }
}

/// The simulation state after `n` ticks with no input in between.
pub open spec fn after_ticks(s: SnakeState, n: nat) -> SnakeState
    decreases n,
{
    if n == 0 {
        s
    } else {
        tick_transition(after_ticks(s, (n - 1) as nat))
    }
}

/// One tick preserves the simulation-state invariant; in particular the
/// chain stays contiguous.
pub proof fn lemma_tick_preserves_wf(s: SnakeState)
    requires
        s.wf(),
    ensures
        tick_transition(s).wf(),
{
    let t = tick_transition(s);
    assert forall|i: int| 0 <= i < t.segs.len() - 1 implies #[trigger] t.contiguous_at(i) by {
        assert(s.contiguous_at(i));
    };
    assert forall|i: int| 0 <= i < t.segs.len() - 1 implies #[trigger] t.no_reversal_at(i) by {
        if i + 2 < s.segs.len() {
            assert(s.no_reversal_at(i + 1));
        } else {
            lemma_opposite_involutive(s.segs[i + 1].direction);
        }
    };
}

/// One direction request preserves the simulation-state invariant; in
/// particular the head never ends up reversed against its follower.
pub proof fn lemma_request_preserves_wf(s: SnakeState, d: Direction)
    requires
        s.wf(),
    ensures
        request_transition(s, d).wf(),
{
    if !s.input_consumed {
        let t = request_transition(s, d);
        let last = s.segs.len() - 1;
        assert forall|i: int| 0 <= i < t.segs.len() - 1 implies #[trigger] t.contiguous_at(i) by {
            assert(s.contiguous_at(i));
        };
        assert forall|i: int| 0 <= i < t.segs.len() - 1 implies #[trigger] t.no_reversal_at(i) by {
            if i + 1 < last {
                assert(s.no_reversal_at(i));
            } else {
                lemma_resolve_never_reverses(s.head_direction(), d);
            }
        };
    }
}

/// A margin of `m >= 1` grid units admits one more step, after which a
/// margin of `m - 1` units remains.
pub proof fn lemma_margin_step(s: SnakeState, m: int)
    requires
        s.within_margin(m),
        m >= 1,
    ensures
        s.can_step(),
        tick_transition(s).within_margin(m - 1),
{
    assert forall|i: int| 0 <= i < s.segs.len() implies #[trigger] s.can_step_at(i) by {
        assert(s.within_margin_at(i, m));
    };
    let t = tick_transition(s);
    assert forall|i: int| 0 <= i < t.segs.len() implies #[trigger] t.within_margin_at(i, m - 1) by {
        assert(s.within_margin_at(i, m));
    };
}

/// One unit of the snake's body, as stored: an `i32` grid position and the
/// direction this segment currently travels.
#[derive(Clone, Copy, PartialEq, Eq, Structural, Debug)]
pub struct SnakePart {
    pub x: i32,
    pub y: i32,
    pub direction: Direction,
}

impl View for SnakePart {
    type V = Seg;

    open spec fn view(&self) -> Seg {
        Seg { x: self.x as int, y: self.y as int, direction: self.direction }
    }
}

/// The model that a stored sequence of parts and a debounce flag stand for.
pub open spec fn state_of(parts: Seq<SnakePart>, input_consumed: bool) -> SnakeState {
    SnakeState { segs: Seq::new(parts.len(), |i: int| parts[i]@), input_consumed }
}

/// The snake simulation: the stored segment chain (head last) and the
/// debounce flag for direction requests.
pub struct Snake {
    parts: Vec<SnakePart>,
    next_direction_set: bool,
}

impl View for Snake {
    type V = SnakeState;

    closed spec fn view(&self) -> SnakeState {
        state_of(self.parts@, self.next_direction_set)
    }
}

impl Snake {
    /// Builds a snake from an explicit chain of parts, with no input
    /// consumed yet. The chain must already satisfy the simulation invariant.
    pub fn new(parts: Vec<SnakePart>) -> (s: Snake)
        requires
            state_of(parts@, false).wf(),
        ensures
            s@ == state_of(parts@, false),
            s@.wf(),
    {
        Snake { parts, next_direction_set: false }
    }

    /// The fixed starting configuration: five segments in a horizontal
    /// line at grid positions (2,5) through (6,5), all moving right, with
    /// the head at (6,5).
    pub fn initial() -> (s: Snake)
        ensures
            s@.wf(),
            !s@.input_consumed,
            s@.segs.len() == 5,
            forall|i: int|
                0 <= i < 5 ==> #[trigger] s@.segs[i] == (Seg {
                    x: 2 + i,
                    y: 5,
                    direction: Direction::Right,
                }),
    {
        let mut parts: Vec<SnakePart> = Vec::new();
        parts.push(SnakePart { x: 2, y: 5, direction: Direction::Right });
        parts.push(SnakePart { x: 3, y: 5, direction: Direction::Right });
        parts.push(SnakePart { x: 4, y: 5, direction: Direction::Right });
        parts.push(SnakePart { x: 5, y: 5, direction: Direction::Right });
        parts.push(SnakePart { x: 6, y: 5, direction: Direction::Right });
        let ghost st = state_of(parts@, false);
        proof {
            assert forall|i: int| 0 <= i < 5 implies #[trigger] st.segs[i] == (Seg {
                x: 2 + i,
                y: 5,
                direction: Direction::Right,
            }) by {
                assert(st.segs[i] == parts@[i]@);
            };
            assert forall|i: int| 0 <= i < st.segs.len() - 1 implies #[trigger] st.contiguous_at(
                i,
            ) by {
                assert(st.segs[i] == (Seg { x: 2 + i, y: 5, direction: Direction::Right }));
                assert(st.segs[i + 1] == (Seg { x: 3 + i, y: 5, direction: Direction::Right }));
            };
            assert forall|i: int| 0 <= i < st.segs.len() - 1 implies #[trigger] st.no_reversal_at(
                i,
            ) by {
                assert(st.segs[i + 1].direction == Direction::Right);
                assert(st.segs[i].direction == Direction::Right);
            };
        }
        Snake { parts, next_direction_set: false }
    }

    /// Number of segments in the chain.
    pub fn len(&self) -> (n: usize)
        ensures
            n == self@.segs.len(),
    {
        self.parts.len()
    }

    /// Read one stored segment; the renderer polls these once per frame.
    pub fn part(&self, i: usize) -> (p: SnakePart)
        requires
            i < self@.segs.len(),
        ensures
            p@ == self@.segs[i as int],
    {
        self.parts[i]
    }

    /// Read-only view of the whole stored chain, head last.
    pub fn parts(&self) -> (v: &Vec<SnakePart>)
        ensures
            v@.len() == self@.segs.len(),
            forall|i: int| 0 <= i < v@.len() ==> (#[trigger] v@[i])@ == self@.segs[i],
    {
        &self.parts
    }

    /// The direction the head currently travels.
    pub fn head_direction(&self) -> (d: Direction)
        requires
            self@.segs.len() >= 1,
        ensures
            d == self@.head_direction(),
    {
        self.parts[self.parts.len() - 1].direction
    }

    /// Whether a direction request has already been consumed in the
    /// current tick window.
    pub fn next_direction_set(&self) -> (b: bool)
        ensures
            b == self@.input_consumed,
    {
        self.next_direction_set
    }

    /// Record a direction request. The first request of a tick window is
    /// resolved against the head's current direction — an exact reversal
    /// is rejected, anything else is honoured — and consumes the window's
    /// input; every later request in the same window is a no-op.
    pub fn request_direction(&mut self, d: Direction)
        requires
            old(self)@.wf(),
        ensures
            final(self)@ == request_transition(old(self)@, d),
            final(self)@.wf(),
            final(self)@.input_consumed,
            final(self)@.segs.len() == old(self)@.segs.len(),
            forall|i: int|
                0 <= i < old(self)@.segs.len() ==> (#[trigger] final(self)@.segs[i]).x
                    == old(self)@.segs[i].x && final(self)@.segs[i].y == old(self)@.segs[i].y,
            forall|i: int|
                0 <= i < old(self)@.segs.len() - 1 ==> (#[trigger] final(self)@.segs[i]).direction
                    == old(self)@.segs[i].direction,
            old(self)@.input_consumed ==> final(self)@ == old(self)@,
            !old(self)@.input_consumed ==> final(self)@.head_direction() == resolve(
                old(self)@.head_direction(),
                d,
            ),
            d == opposite(old(self)@.head_direction()) ==> final(self)@.head_direction()
                == old(self)@.head_direction(),
    {
        if !self.next_direction_set {
            let n = self.parts.len();
            let p = self.parts[n - 1];
            let nd = match (p.direction, d) {
                (Direction::Up, Direction::Down) => Direction::Up,
                (Direction::Down, Direction::Up) => Direction::Down,
                (Direction::Left, Direction::Right) => Direction::Left,
                (Direction::Right, Direction::Left) => Direction::Right,
                _ => d,
            };
            self.parts.set(n - 1, SnakePart { x: p.x, y: p.y, direction: nd });
            self.next_direction_set = true;
            proof {
                assert(nd == resolve(old(self)@.head_direction(), d));
                assert(self@.segs =~= request_transition(old(self)@, d).segs);
                assert(self@ == request_transition(old(self)@, d));
                lemma_request_preserves_wf(old(self)@, d);
            }
        }
    }

    /// Advance the simulation by one tick: move every segment one grid
    /// unit in its own pre-tick direction, let every non-head segment
    /// inherit the pre-tick direction of the segment ahead of it, and
    /// let the next tick window accept input again. Each non-head segment
    /// ends up exactly where its leader stood before the tick, so the
    /// chain stays contiguous.
    pub fn advance(&mut self)
        requires
            old(self)@.wf(),
            old(self)@.can_step(),
        ensures
            final(self)@ == tick_transition(old(self)@),
            final(self)@.wf(),
            !final(self)@.input_consumed,
            final(self)@.segs.len() == old(self)@.segs.len(),
            forall|i: int|
                0 <= i < old(self)@.segs.len() ==> (#[trigger] final(self)@.segs[i]).x
                    == old(self)@.segs[i].x + step_x(old(self)@.segs[i].direction)
                    && final(self)@.segs[i].y == old(self)@.segs[i].y + step_y(
                    old(self)@.segs[i].direction,
                ),
            forall|i: int|
                0 <= i < old(self)@.segs.len() - 1 ==> (#[trigger] final(self)@.segs[i]).direction
                    == old(self)@.segs[i + 1].direction,
            final(self)@.head_direction() == old(self)@.head_direction(),
            forall|i: int|
                0 <= i < old(self)@.segs.len() - 1 ==> (#[trigger] final(self)@.segs[i]).x
                    == old(self)@.segs[i + 1].x && final(self)@.segs[i].y
                    == old(self)@.segs[i + 1].y,
    {
        let ghost init = self@;
        let n = self.parts.len();
        let mut j: usize = 0;
        while j < n
            invariant
                j <= n,
                n == self.parts@.len(),
                init.segs.len() == n,
                init.wf(),
                init.can_step(),
                self.next_direction_set == init.input_consumed,
                forall|k: int| 0 <= k < j ==> (#[trigger] self.parts@[k])@ == moved(init.segs[k]),
                forall|k: int| j <= k < n ==> (#[trigger] self.parts@[k])@ == init.segs[k],
            decreases n - j,
        {
            proof {
                assert(init.can_step_at(j as int));
            }
            let p = self.parts[j];
            let q = match p.direction {
                Direction::Up => SnakePart { x: p.x, y: p.y - 1, direction: p.direction },
                Direction::Down => SnakePart { x: p.x, y: p.y + 1, direction: p.direction },
                Direction::Left => SnakePart { x: p.x - 1, y: p.y, direction: p.direction },
                Direction::Right => SnakePart { x: p.x + 1, y: p.y, direction: p.direction },
            };
            self.parts.set(j, q);
            j = j + 1;
        }
        let ghost mid = self.parts@;
        let mut i: usize = 0;
        while i < n - 1
            invariant
                i <= n - 1,
                n >= 1,
                n == self.parts@.len(),
                mid.len() == n,
                init.segs.len() == n,
                self.next_direction_set == init.input_consumed,
                forall|k: int| 0 <= k < n ==> (#[trigger] mid[k])@ == moved(init.segs[k]),
                forall|k: int|
                    0 <= k < i ==> (#[trigger] self.parts@[k])@ == (Seg {
                        x: mid[k]@.x,
                        y: mid[k]@.y,
                        direction: mid[k + 1]@.direction,
                    }),
                forall|k: int| i <= k < n ==> (#[trigger] self.parts@[k])@ == mid[k]@,
            decreases n - i,
        {
            let d = self.parts[i + 1].direction;
            let p = self.parts[i];
            self.parts.set(i, SnakePart { x: p.x, y: p.y, direction: d });
            i = i + 1;
        }
        self.next_direction_set = false;
        proof {
            assert forall|k: int| 0 <= k < n implies self@.segs[k] == tick_transition(
                init,
            ).segs[k] by {
                assert(self@.segs[k] == self.parts@[k]@);
                if k < n - 1 {
                    assert(self.parts@[k]@ == (Seg {
                        x: mid[k]@.x,
                        y: mid[k]@.y,
                        direction: mid[k + 1]@.direction,
                    }));
                    assert(mid[k]@ == moved(init.segs[k]));
                    assert(mid[k + 1]@ == moved(init.segs[k + 1]));
                } else {
                    assert(self.parts@[k]@ == mid[k]@);
                    assert(mid[k]@ == moved(init.segs[k]));
                }
            };
            assert(self@.segs =~= tick_transition(init).segs);
            assert(self@ == tick_transition(init));
            lemma_tick_preserves_wf(init);
            assert forall|k: int| 0 <= k < n - 1 implies (#[trigger] self@.segs[k]).x
                == init.segs[k + 1].x && self@.segs[k].y == init.segs[k + 1].y by {
                assert(init.contiguous_at(k));
            };
        }
    }
}

} // verus!
