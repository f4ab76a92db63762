//! Food placement: random draws stay in the spawn range and never land on
//! an occupied cell, over many trials.

use snake::food::is_free_cell;
use snake::food::new_food;
use snake::grid::Point;
use snake::grid::BOUND_X;
use snake::grid::BOUND_Y;

#[test]
fn random_point_stays_in_spawn_range() {
    for _ in 0..500 {
        let p = Point::random();
        assert!(-BOUND_X <= p.x && p.x < BOUND_X);
        assert!(-BOUND_Y <= p.y && p.y < BOUND_Y);
    }
}

#[test]
fn free_cell_check_is_exact() {
    let occupied = vec![Point { x: 0, y: 0 }, Point { x: 1, y: 0 }, Point { x: 1, y: 1 }];
    assert!(!is_free_cell(Point { x: 0, y: 0 }, &occupied));
    assert!(!is_free_cell(Point { x: 1, y: 1 }, &occupied));
    assert!(is_free_cell(Point { x: 2, y: 2 }, &occupied));
    assert!(is_free_cell(Point { x: -1, y: 0 }, &occupied));
    assert!(is_free_cell(Point { x: 5, y: 5 }, &Vec::new()));
}

#[test]
fn food_never_spawns_on_the_body() {
    // a body crowding a band of the field, repeated random trials
    let mut occupied = Vec::new();
    for x in -BOUND_X..BOUND_X {
        for y in -2i32..3i32 {
            occupied.push(Point { x, y });
        }
    }
    for _ in 0..200 {
        let food = new_food(&occupied).expect("plenty of free cells remain");
        assert!(-BOUND_X <= food.0.x && food.0.x < BOUND_X);
        assert!(-BOUND_Y <= food.0.y && food.0.y < BOUND_Y);
        assert!(!occupied.contains(&food.0));
    }
}
