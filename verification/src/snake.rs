//! The snake aggregate: an ordered sequence of body segments (head first),
//! the current facing, and the move-interval timer. Growth prepends a new
//! head; an ordinary move drops the tail and prepends the new head. The
//! steering rule rejects exactly the reversal into the snake's own neck.

use vstd::prelude::*;
use vstd::set_lib::lemma_int_range;
use vstd::set_lib::lemma_len_subset;
use vstd::set_lib::set_int_range;

use crate::grid::in_bounds;
use crate::grid::opposite;
use crate::grid::opposite_spec;
use crate::grid::Direction;
use crate::grid::Point;
use crate::grid::BOUND_X;
use crate::grid::BOUND_Y;
use crate::grid::GRID_CELLS;
use crate::grid::GRID_WIDTH;
use crate::timer::TickTimer;
use crate::timer::TimerMode;

verus! {

/// The fixed interval between two movement ticks.
pub const MOVE_INTERVAL_MS: u64 = 150;

/// A snake: its movement timer, its facing, and its body segments with the
/// head at index 0 and the tail at the last index.
#[derive(Debug)]
pub struct Snake {
    pub move_timer: TickTimer,
    pub move_direction: Direction,
    pub body: Vec<Point>,
}

/// A committed body: never empty, every segment inside the walls, and no
/// two segments on the same cell.
pub open spec fn body_ok(body: Seq<Point>) -> bool {
    &&& body.len() >= 1
    &&& forall|i: int| 0 <= i < body.len() ==> in_bounds(#[trigger] body[i])
    &&& body.no_duplicates()
}

/// The body layout of a freshly started snake: three segments left of the
/// origin, laid out opposite the initial facing.
pub open spec fn initial_body() -> Seq<Point> {
    seq![
        Point { x: -5i32, y: 0i32 },
        Point { x: -6i32, y: 0i32 },
        Point { x: -7i32, y: 0i32 },
    ]
}

impl Snake {
    pub open spec fn wf(self) -> bool {
        &&& self.move_timer.wf()
        &&& body_ok(self.body@)
    }

    /// The head segment's cell.
    pub fn head(&self) -> (h: Point)
        requires
            self.body@.len() >= 1,
        ensures
            h == self.body@[0],
    {
        self.body[0]
    }

    /// Whether any body segment occupies `p`.
    pub fn hits_body(&self, p: Point) -> (r: bool)
        ensures
            r == self.body@.contains(p),
    {
        let mut i: usize = 0;
        while i < self.body.len()
            invariant
                i <= self.body@.len(),
                forall|j: int| 0 <= j < i ==> self.body@[j] != p,
            decreases self.body@.len() - i,
        {
            if self.body[i] == p {
                proof {
                    assert(self.body@[i as int] == p);
                }
                return true;
            }
            i = i + 1;
        }
        false
    }

    /// Prepend `new_head` to the body: the length grows by exactly one and
    /// every prior segment keeps its cell, shifted one index down.
    pub fn grow(&mut self, new_head: Point)
        ensures
            final(self).body@ == old(self).body@.insert(0, new_head),
            final(self).body@.len() == old(self).body@.len() + 1,
            final(self).body@[0] == new_head,
            forall|i: int|
                0 <= i < old(self).body@.len() ==> final(self).body@[i + 1] == #[trigger] old(
                    self,
                ).body@[i],
            final(self).move_direction == old(self).move_direction,
            final(self).move_timer == old(self).move_timer,
    {
        self.body.insert(0, new_head);
    }

    /// Relabel the tail segment with `new_head`'s cell and rotate it to the
    /// front: the length is unchanged, the former tail cell is dropped, and
    /// the new head carries the computed candidate cell.
    pub fn advance(&mut self, new_head: Point)
        requires
            old(self).body@.len() >= 1,
        ensures
            final(self).body@ == old(self).body@.drop_last().insert(0, new_head),
            final(self).body@.len() == old(self).body@.len(),
            final(self).body@[0] == new_head,
            old(self).body@.no_duplicates() && !old(self).body@.contains(new_head)
                ==> !final(self).body@.contains(old(self).body@.last()),
            final(self).move_direction == old(self).move_direction,
            final(self).move_timer == old(self).move_timer,
    {
        let last = self.body.len() - 1;
        self.body.remove(last);
        self.body.insert(0, new_head);
        proof {
            assert(self.body@ =~= old(self).body@.drop_last().insert(0, new_head));
            if old(self).body@.no_duplicates() && !old(self).body@.contains(new_head) {
                let pre = old(self).body@;
                let tail = pre.last();
                pre.drop_last().insert_ensures(0, new_head);
                if self.body@.contains(tail) {
                    let k = choose|k: int| 0 <= k < self.body@.len() && self.body@[k] == tail;
                    if k == 0 {
                        assert(pre.contains(new_head)) by {
                            assert(pre[pre.len() - 1] == new_head);
                        }
                    } else {
                        assert(self.body@[k] == pre.drop_last()[k - 1]);
                        assert(pre[k - 1] == pre[pre.len() - 1]);
                    }
                }
            }
        }
    }

    /// Apply a direction-change request: the request is rejected exactly
    /// when it is the reverse of the current facing (which would drive the
    /// head into its own neck); any of the other three directions is
    /// accepted as the new facing.
    pub fn contral_snake(&mut self, requested: Direction) -> (accepted: bool)
        ensures
            accepted == (requested != opposite_spec(old(self).move_direction)),
            final(self).move_direction == if accepted {
                requested
            } else {
                old(self).move_direction
            },
            final(self).body == old(self).body,
            final(self).move_timer == old(self).move_timer,
    {
        let opp = opposite(self.move_direction);
        if requested == opp {
            false
        } else {
            self.move_direction = requested;
            true
        }
    }
}

/// Construct a freshly started snake: three contiguous segments laid out
/// opposite the initial facing (to the right), with a running repeating
/// move timer.
pub fn setup_snake() -> (s: Snake)
    ensures
        s.wf(),
        s.body@ == initial_body(),
        s.move_direction == Direction::Right,
        s.move_timer == (TickTimer {
            period_ms: MOVE_INTERVAL_MS,
            elapsed_ms: 0,
            mode: TimerMode::Repeating,
            paused: false,
            finished: false,
        }),
{
    let mut body: Vec<Point> = Vec::new();
    body.push(Point { x: -5, y: 0 });
    body.push(Point { x: -6, y: 0 });
    body.push(Point { x: -7, y: 0 });
    let s = Snake {
        move_timer: TickTimer::new(MOVE_INTERVAL_MS, TimerMode::Repeating),
        move_direction: Direction::Right,
        body,
    };
    proof {
        assert(s.body@ =~= initial_body());
    }
    s
}

/// The row-major index of a cell inside the walls.
pub open spec fn cell_index(p: Point) -> int {
    (p.x + BOUND_X) + (GRID_WIDTH as int) * (p.y + BOUND_Y)
}

/// Distinct cells inside the walls cannot outnumber the playfield: any
/// committed body has at most `GRID_CELLS` segments.
pub proof fn lemma_body_len_bounded(body: Seq<Point>)
    requires
        forall|i: int| 0 <= i < body.len() ==> in_bounds(#[trigger] body[i]),
        body.no_duplicates(),
    ensures
        body.len() <= GRID_CELLS,
{
    let f = |p: Point| cell_index(p);
    let mapped = body.map_values(f);
    assert forall|i: int, j: int|
        0 <= i < mapped.len() && 0 <= j < mapped.len() && i != j implies mapped[i] != mapped[
        j] by {
        assert(in_bounds(body[i]) && in_bounds(body[j]));
        assert(body[i] != body[j]);
    };
    mapped.unique_seq_to_set();
    assert forall|v: int| mapped.to_set().contains(v) implies set_int_range(
        0,
        GRID_CELLS as int,
    ).contains(v) by {
        let k = choose|k: int| 0 <= k < mapped.len() && mapped[k] == v;
        assert(in_bounds(body[k]));
    };
    lemma_int_range(0, GRID_CELLS as int);
    lemma_len_subset(mapped.to_set(), set_int_range(0, GRID_CELLS as int));
}

} // verus!
