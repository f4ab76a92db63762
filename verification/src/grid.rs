//! Playfield geometry: logical cell coordinates, the four movement
//! directions, wall bounds, and the conversion to draw offsets.

use vstd::prelude::*;

verus! {

/// Half-width of the playfield in cells: legal x coordinates lie in
/// `-BOUND_X ..= BOUND_X`.
pub const BOUND_X: i32 = 15;

/// Half-height of the playfield in cells: legal y coordinates lie in
/// `-BOUND_Y ..= BOUND_Y`.
pub const BOUND_Y: i32 = 8;

/// Side length of one grid cell in draw units.
pub const SQUARE_SIZE: i64 = 30;

/// Number of columns of the playfield: `2 * BOUND_X + 1`.
pub const GRID_WIDTH: i32 = 2 * 15 + 1;

/// Number of rows of the playfield: `2 * BOUND_Y + 1`.
pub const GRID_HEIGHT: i32 = 2 * 8 + 1;

/// Number of cells of the playfield: `GRID_WIDTH * GRID_HEIGHT`.
pub const GRID_CELLS: i32 = 31 * 17;

/// A logical cell coordinate. Equality is by field comparison.
#[derive(Clone, Copy, Debug, PartialEq, Eq, Structural)]
pub struct Point {
    pub x: i32,
    pub y: i32,
}

/// A facing for the snake; there is no diagonal and no "none" value.
#[derive(Clone, Copy, Debug, PartialEq, Eq, Structural)]
pub enum Direction {
    Up,
    Right,
    Down,
    Left,
}

/// The exact reverse of a direction.
pub open spec fn opposite_spec(d: Direction) -> Direction {
    match d {
        Direction::Up => Direction::Down,
        Direction::Down => Direction::Up,
        Direction::Left => Direction::Right,
        Direction::Right => Direction::Left,
    }
}

pub fn opposite(d: Direction) -> (r: Direction)
    ensures
        r == opposite_spec(d),
{
    match d {
        Direction::Up => Direction::Down,
        Direction::Down => Direction::Up,
        Direction::Left => Direction::Right,
        Direction::Right => Direction::Left,
    }
}

/// The x coordinate one step from `x` in direction `d`.
pub open spec fn step_x(x: int, d: Direction) -> int {
    match d {
        Direction::Left => x - 1,
        Direction::Right => x + 1,
        _ => x,
    }
}

/// The y coordinate one step from `y` in direction `d`.
pub open spec fn step_y(y: int, d: Direction) -> int {
    match d {
        Direction::Up => y + 1,
        Direction::Down => y - 1,
        _ => y,
    }
}

/// Whether `p` lies inside the walls.
pub open spec fn in_bounds(p: Point) -> bool {
    -BOUND_X <= p.x <= BOUND_X && -BOUND_Y <= p.y <= BOUND_Y
}

/// Whether `p` lies beyond a wall: strictly outside
/// `[-BOUND_X, BOUND_X] x [-BOUND_Y, BOUND_Y]`.
pub open spec fn hits_wall_spec(p: Point) -> bool {
    !in_bounds(p)
}

pub fn hits_wall(p: Point) -> (r: bool)
    ensures
        r == hits_wall_spec(p),
{
    p.x < -BOUND_X || p.x > BOUND_X || p.y < -BOUND_Y || p.y > BOUND_Y
}

impl Point {
    /// The cell one step away in the given direction. No wraparound: the
    /// result may deliberately lie outside the walls, so that the collision
    /// check can detect wall strikes.
    pub fn from_direction(&self, direction: &Direction) -> (r: Point)
        requires
            i32::MIN < self.x < i32::MAX,
            i32::MIN < self.y < i32::MAX,
        ensures
            r.x as int == step_x(self.x as int, *direction),
            r.y as int == step_y(self.y as int, *direction),
    {
        let mut x = self.x;
        let mut y = self.y;
        match *direction {
            Direction::Up => y = y + 1,
            Direction::Down => y = y - 1,
            Direction::Left => x = x - 1,
            Direction::Right => x = x + 1,
        }
        Point { x, y }
    }

    /// The continuous draw offset of this cell: each coordinate scaled by
    /// the cell size. The depth coordinate is a fixed constant and is left
    /// to the render collaborator.
    pub fn translation(&self) -> (r: (i64, i64))
        ensures
            r.0 == self.x as int * SQUARE_SIZE,
            r.1 == self.y as int * SQUARE_SIZE,
    {
        ((self.x as i64) * SQUARE_SIZE, (self.y as i64) * SQUARE_SIZE)
    }
}

/// Movement is invertible: one step in a direction followed by one step in
/// its exact opposite returns to the starting coordinates.
pub proof fn lemma_step_invertible(x: int, y: int, d: Direction)
    ensures
        step_x(step_x(x, d), opposite_spec(d)) == x,
        step_y(step_y(y, d), opposite_spec(d)) == y,
{
}

} // verus!
