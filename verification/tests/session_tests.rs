//! Whole-session scenarios: eating, dying at a wall and on the body,
//! pausing, food spawning, and the record across restarts.

use snake::common::AppState;
use snake::common::GameState;
use snake::food::Food;
use snake::food::FoodTimer;
use snake::grid::Direction;
use snake::grid::Point;
use snake::score::Record;
use snake::score::Score;
use snake::session::GameSession;
use snake::session::SpawnOutcome;
use snake::session::TickOutcome;
use snake::snake::Snake;
use snake::timer::TickTimer;
use snake::timer::TimerMode;

/// A playing session assembled at a chosen position: the snake lies on
/// `body` (head first), the score counts the meals past the initial three
/// segments, and any food stands on `food`.
fn playing_session(body: Vec<Point>, facing: Direction, food: Option<Point>, record: u32) -> GameSession {
    let score = (body.len() - 3) as u32;
    GameSession {
        app_state: AppState::InGame,
        game_state: GameState::Playing,
        snake: Snake {
            move_timer: TickTimer::new(150, TimerMode::Repeating),
            move_direction: facing,
            body,
        },
        food: food.map(|p| Food(p)),
        food_timer: FoodTimer(TickTimer {
            period_ms: 1000,
            elapsed_ms: if food.is_some() { 1000 } else { 0 },
            mode: TimerMode::Once,
            paused: false,
            finished: food.is_some(),
        }),
        score: Score(score),
        record: Record(record),
    }
}

#[test]
fn eating_grows_and_scores() {
    // snake of length 3 at [(0,0),(-1,0),(-2,0)] facing Right, food at (1,0)
    let body = vec![Point { x: 0, y: 0 }, Point { x: -1, y: 0 }, Point { x: -2, y: 0 }];
    let mut s = playing_session(body, Direction::Right, Some(Point { x: 1, y: 0 }), 0);
    let out = s.move_snake(150);
    assert_eq!(out, TickOutcome::Ate);
    assert_eq!(
        s.snake.body,
        vec![
            Point { x: 1, y: 0 },
            Point { x: 0, y: 0 },
            Point { x: -1, y: 0 },
            Point { x: -2, y: 0 },
        ]
    );
    assert_eq!(s.score.0, 1);
    assert!(s.food.is_none());
    // a new food countdown starts
    assert_eq!(s.food_timer.0.elapsed_ms, 0);
    assert!(!s.food_timer.0.finished);
    assert!(!s.food_timer.0.paused);
}

#[test]
fn wall_strike_ends_the_session_without_mutation() {
    let body = vec![
        Point { x: 15, y: 0 },
        Point { x: 14, y: 0 },
        Point { x: 13, y: 0 },
        Point { x: 12, y: 0 },
    ];
    let mut s = playing_session(body.clone(), Direction::Right, None, 0);
    let out = s.move_snake(150);
    assert_eq!(out, TickOutcome::Died);
    assert_eq!(s.app_state, AppState::GameOver);
    assert_eq!(s.game_state, GameState::Quitted);
    // record becomes max(old record, score) = max(0, 1) = 1
    assert_eq!(s.record.0, 1);
    // no body mutation was committed
    assert_eq!(s.snake.body, body);
    assert_eq!(s.score.0, 1);
}

#[test]
fn record_is_kept_when_higher_than_score() {
    let body = vec![Point { x: 0, y: 8 }, Point { x: 0, y: 7 }, Point { x: 0, y: 6 }];
    let mut s = playing_session(body, Direction::Up, None, 9);
    let out = s.move_snake(150);
    assert_eq!(out, TickOutcome::Died);
    assert_eq!(s.record.0, 9);
}

#[test]
fn self_strike_ends_the_session() {
    // the head turns up into a middle segment of its own body
    let body = vec![
        Point { x: 0, y: 0 },
        Point { x: 1, y: 0 },
        Point { x: 1, y: 1 },
        Point { x: 0, y: 1 },
        Point { x: -1, y: 1 },
        Point { x: -1, y: 0 },
    ];
    let mut s = playing_session(body.clone(), Direction::Up, None, 0);
    let out = s.move_snake(150);
    assert_eq!(out, TickOutcome::Died);
    assert_eq!(s.app_state, AppState::GameOver);
    assert_eq!(s.snake.body, body);
}

#[test]
fn tail_cell_still_counts_as_a_strike() {
    // the candidate equals the current tail cell: the check runs before
    // the tail moves away, so this is fatal
    let body = vec![
        Point { x: 0, y: 0 },
        Point { x: 1, y: 0 },
        Point { x: 1, y: 1 },
        Point { x: 0, y: 1 },
    ];
    let mut s = playing_session(body, Direction::Up, None, 0);
    assert_eq!(s.move_snake(150), TickOutcome::Died);
}

#[test]
fn collision_check_hits_exactly_walls_and_segments() {
    let body = vec![Point { x: 0, y: 0 }, Point { x: -1, y: 0 }, Point { x: -2, y: 0 }];
    let s = playing_session(body, Direction::Right, None, 0);
    // beyond each wall
    assert!(s.check_collision(Point { x: 16, y: 0 }));
    assert!(s.check_collision(Point { x: -16, y: 0 }));
    assert!(s.check_collision(Point { x: 0, y: 9 }));
    assert!(s.check_collision(Point { x: 0, y: -9 }));
    // on each segment
    assert!(s.check_collision(Point { x: 0, y: 0 }));
    assert!(s.check_collision(Point { x: -1, y: 0 }));
    assert!(s.check_collision(Point { x: -2, y: 0 }));
    // and nowhere else, walls and corners included
    assert!(!s.check_collision(Point { x: 1, y: 0 }));
    assert!(!s.check_collision(Point { x: 15, y: 8 }));
    assert!(!s.check_collision(Point { x: -15, y: -8 }));
    assert!(!s.check_collision(Point { x: 0, y: 1 }));
}

#[test]
fn idle_until_the_move_timer_fires() {
    let body = vec![Point { x: 0, y: 0 }, Point { x: -1, y: 0 }, Point { x: -2, y: 0 }];
    let mut s = playing_session(body.clone(), Direction::Right, None, 0);
    assert_eq!(s.move_snake(100), TickOutcome::Idle);
    assert_eq!(s.snake.body, body);
    assert_eq!(s.move_snake(50), TickOutcome::Moved);
    assert_eq!(
        s.snake.body,
        vec![Point { x: 1, y: 0 }, Point { x: 0, y: 0 }, Point { x: -1, y: 0 }]
    );
}

#[test]
fn pausing_freezes_movement() {
    let mut s = GameSession::new();
    s.start_game().unwrap();
    let before = s.snake.body.clone();
    s.pause_game().unwrap();
    assert_eq!(s.game_state, GameState::Paused);
    assert!(s.snake.move_timer.paused);
    // no frame advances the snake while paused, however long
    for _ in 0..10 {
        assert_eq!(s.move_snake(1000), TickOutcome::Idle);
        assert_eq!(s.snake.body, before);
    }
    // un-pausing resumes movement
    s.pause_game().unwrap();
    assert_eq!(s.game_state, GameState::Playing);
    assert_eq!(s.move_snake(150), TickOutcome::Moved);
    assert_ne!(s.snake.body, before);
}

#[test]
fn food_spawns_when_due_and_off_the_body() {
    let body = vec![Point { x: 0, y: 0 }, Point { x: -1, y: 0 }, Point { x: -2, y: 0 }];
    let mut s = playing_session(body.clone(), Direction::Right, None, 0);
    assert_eq!(s.generate_food(500), SpawnOutcome::NotDue);
    assert!(s.food.is_none());
    match s.generate_food(500) {
        SpawnOutcome::Spawned(p) => {
            assert!(!body.contains(&p));
            assert_eq!(s.food, Some(Food(p)));
        }
        other => panic!("expected a spawn, got {:?}", other),
    }
    // with food present, later frames spawn nothing
    assert_eq!(s.generate_food(5000), SpawnOutcome::NotDue);
}

#[test]
fn clear_food_despawns_and_halts_the_countdown() {
    let body = vec![Point { x: 0, y: 0 }, Point { x: -1, y: 0 }, Point { x: -2, y: 0 }];
    let mut s = playing_session(body, Direction::Right, Some(Point { x: 5, y: 5 }), 0);
    s.clear_food();
    assert!(s.food.is_none());
    assert!(s.food_timer.0.paused);
}

#[test]
fn record_never_decreases_across_restarts() {
    let mut records = Vec::new();
    let mut s = GameSession::new();
    records.push(s.record.0);

    // first session: die at the wall with score 2
    s.start_game().unwrap();
    s.snake.body = vec![
        Point { x: 15, y: 0 },
        Point { x: 14, y: 0 },
        Point { x: 13, y: 0 },
        Point { x: 12, y: 0 },
        Point { x: 11, y: 0 },
    ];
    s.score = Score(2);
    assert_eq!(s.move_snake(150), TickOutcome::Died);
    records.push(s.record.0);
    assert_eq!(s.record.0, 2);

    // restart: the record survives the reset
    s.restart_game();
    records.push(s.record.0);
    s.play_game().unwrap();
    records.push(s.record.0);
    assert_eq!(s.record.0, 2);
    assert_eq!(s.score.0, 0);

    // second session: die immediately with score 0
    s.snake.body = vec![Point { x: 15, y: 0 }, Point { x: 14, y: 0 }, Point { x: 13, y: 0 }];
    assert_eq!(s.move_snake(150), TickOutcome::Died);
    records.push(s.record.0);
    assert_eq!(s.record.0, 2);

    // back to the menu and a fresh start: still there
    s.back_to_main_menu().unwrap();
    records.push(s.record.0);
    s.start_game().unwrap();
    records.push(s.record.0);
    assert_eq!(s.record.0, 2);

    for pair in records.windows(2) {
        assert!(pair[0] <= pair[1]);
    }
}
