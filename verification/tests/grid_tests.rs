//! Playfield geometry: movement steps, their inverses, wall detection and
//! draw offsets.

use snake::grid::hits_wall;
use snake::grid::opposite;
use snake::grid::Direction;
use snake::grid::Point;
use snake::grid::BOUND_X;
use snake::grid::BOUND_Y;
use snake::grid::GRID_CELLS;
use snake::grid::SQUARE_SIZE;

#[test]
fn steps_move_one_cell() {
    let p = Point { x: 2, y: -3 };
    assert_eq!(p.from_direction(&Direction::Up), Point { x: 2, y: -2 });
    assert_eq!(p.from_direction(&Direction::Down), Point { x: 2, y: -4 });
    assert_eq!(p.from_direction(&Direction::Left), Point { x: 1, y: -3 });
    assert_eq!(p.from_direction(&Direction::Right), Point { x: 3, y: -3 });
}

#[test]
fn opposite_pairs() {
    assert_eq!(opposite(Direction::Up), Direction::Down);
    assert_eq!(opposite(Direction::Down), Direction::Up);
    assert_eq!(opposite(Direction::Left), Direction::Right);
    assert_eq!(opposite(Direction::Right), Direction::Left);
}

#[test]
fn step_then_opposite_returns() {
    let dirs = [Direction::Up, Direction::Down, Direction::Left, Direction::Right];
    let starts = [
        Point { x: 0, y: 0 },
        Point { x: -15, y: 8 },
        Point { x: 7, y: -8 },
        Point { x: 15, y: 3 },
    ];
    for d in dirs {
        for p in starts {
            let there = p.from_direction(&d);
            let back = there.from_direction(&opposite(d));
            assert_eq!(back, p);
        }
    }
}

#[test]
fn wall_check_is_exact() {
    // inside, including every corner
    assert!(!hits_wall(Point { x: 0, y: 0 }));
    assert!(!hits_wall(Point { x: BOUND_X, y: BOUND_Y }));
    assert!(!hits_wall(Point { x: -BOUND_X, y: -BOUND_Y }));
    assert!(!hits_wall(Point { x: BOUND_X, y: -BOUND_Y }));
    assert!(!hits_wall(Point { x: -BOUND_X, y: BOUND_Y }));
    // one past each wall
    assert!(hits_wall(Point { x: BOUND_X + 1, y: 0 }));
    assert!(hits_wall(Point { x: -BOUND_X - 1, y: 0 }));
    assert!(hits_wall(Point { x: 0, y: BOUND_Y + 1 }));
    assert!(hits_wall(Point { x: 0, y: -BOUND_Y - 1 }));
}

#[test]
fn translation_scales_by_cell_size() {
    let p = Point { x: -5, y: 2 };
    assert_eq!(p.translation(), (-5 * SQUARE_SIZE, 2 * SQUARE_SIZE));
    assert_eq!(Point { x: 0, y: 0 }.translation(), (0, 0));
}

#[test]
fn grid_cell_count() {
    assert_eq!(GRID_CELLS, (2 * BOUND_X + 1) * (2 * BOUND_Y + 1));
}
