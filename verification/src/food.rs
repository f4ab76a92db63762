//! Food placement: a food item occupies one cell of the interior spawn
//! range and is drawn by rejection sampling so that it never lands on a
//! cell occupied by the snake body. The sampling is bounded by a retry
//! budget with an explicit "no space" report instead of an unbounded
//! retry on a (nearly) full grid.

use rand::Rng;

use vstd::prelude::*;

use crate::grid::Point;
use crate::grid::BOUND_X;
use crate::grid::BOUND_Y;
use crate::timer::TickTimer;

verus! {

/// How long after a start (or after a meal) the next food item appears.
pub const FOOD_DELAY_MS: u64 = 1000;

/// How many random draws a spawn may reject before reporting no space.
pub const SPAWN_RETRY_BUDGET: u32 = 1000;

/// An active food item and the cell it occupies.
#[derive(Clone, Copy, Debug, PartialEq, Eq, Structural)]
pub struct Food(pub Point);

/// The countdown until the next food item spawns.
#[derive(Clone, Copy, Debug, PartialEq, Eq, Structural)]
pub struct FoodTimer(pub TickTimer);

/// The interior range food may spawn in: a margin stays clear of the
/// far walls.
pub open spec fn in_spawn_range(p: Point) -> bool {
    -BOUND_X <= p.x < BOUND_X && -BOUND_Y <= p.y < BOUND_Y
}

/// Relies on rand::Rng::gen_range over an i32 half-open range, through
/// rand::thread_rng: a uniform draw from `lo..hi`, which panics only when
/// the range is empty.
#[verifier::external_body]
fn random_in_range(lo: i32, hi: i32) -> (r: i32)
    requires
        lo < hi,
    ensures
        lo <= r < hi,
{
    rand::thread_rng().gen_range(lo..hi)
}

impl Point {
    /// Draw a random cell of the spawn range.
    pub fn random() -> (p: Point)
        ensures
            in_spawn_range(p),
    {
        let x = random_in_range(-BOUND_X, BOUND_X);
        let y = random_in_range(-BOUND_Y, BOUND_Y);
        Point { x, y }
    }
}

/// Whether `cell` avoids every cell of `occupied`, so food may spawn there.
pub fn is_free_cell(cell: Point, occupied: &Vec<Point>) -> (r: bool)
    ensures
        r == !occupied@.contains(cell),
{
    let mut i: usize = 0;
    while i < occupied.len()
        invariant
            i <= occupied@.len(),
            forall|j: int| 0 <= j < i ==> occupied@[j] != cell,
        decreases occupied@.len() - i,
    {
        if occupied[i] == cell {
            proof {
                assert(occupied@[i as int] == cell);
            }
            return false;
        }
        i = i + 1;
    }
    true
}

/// Produce a food item on a random cell that no cell of `occupied` holds,
/// by rejection sampling. Reports `None` when the retry budget runs out
/// without finding a free cell, which can only happen by bad luck or on a
/// (nearly) fully occupied grid.
pub fn new_food(occupied: &Vec<Point>) -> (r: Option<Food>)
    ensures
        match r {
            Some(food) => in_spawn_range(food.0) && !occupied@.contains(food.0),
            None => true,
        },
{
    let mut tries: u32 = 0;
    while tries < SPAWN_RETRY_BUDGET
        decreases SPAWN_RETRY_BUDGET - tries,
    {
        let candidate = Point::random();
        if is_free_cell(candidate, occupied) {
            return Some(Food(candidate));
        }
        tries = tries + 1;
    }
    None
}

} // verus!
