//! The game session: one explicit state struct holding the snake, the food,
//! the score and record, and the two coarse state machines, together with
//! every transition. Each tick runs to completion inside one frame; the
//! caller supplies the elapsed wall time and the logical input events, and
//! reads back an outcome value that tells the render and audio
//! collaborators what happened.

use vstd::prelude::*;

use crate::common::AppState;
use crate::common::GameState;
use crate::common::MenuButtonAction;
use crate::common::StateError;
use crate::food::in_spawn_range;
use crate::food::new_food;
use crate::food::Food;
use crate::food::FoodTimer;
use crate::food::FOOD_DELAY_MS;
use crate::grid::hits_wall;
use crate::grid::hits_wall_spec;
use crate::grid::in_bounds;
use crate::grid::opposite_spec;
use crate::grid::step_x;
use crate::grid::step_y;
use crate::grid::Direction;
use crate::grid::Point;
use crate::score::Record;
use crate::score::Score;
use crate::snake::initial_body;
use crate::snake::lemma_body_len_bounded;
use crate::snake::setup_snake;
use crate::snake::Snake;
use crate::snake::MOVE_INTERVAL_MS;
use crate::timer::TickTimer;
use crate::timer::TimerMode;

verus! {

/// What a movement tick did; the caller turns `Ate` and `Died` into the
/// eat and die signals for the audio collaborator.
#[derive(Clone, Copy, Debug, PartialEq, Eq, Structural)]
pub enum TickOutcome {
    /// The move timer did not fire (or the session is not playing).
    Idle,
    /// The snake advanced one cell: tail dropped, head moved.
    Moved,
    /// The snake ate the food and grew by one segment.
    Ate,
    /// The candidate head hit a wall or the body; the session is over.
    Died,
}

/// What a food-spawn frame did.
#[derive(Clone, Copy, Debug, PartialEq, Eq, Structural)]
pub enum SpawnOutcome {
    /// The spawn countdown has not run out (or food is already present,
    /// or the session is not playing).
    NotDue,
    /// A food item appeared on the given cell.
    Spawned(Point),
    /// The retry budget found no free cell; the countdown starts over.
    NoSpace,
}

/// What a handled menu click asks of the caller.
#[derive(Clone, Copy, Debug, PartialEq, Eq, Structural)]
pub enum ClickOutcome {
    Handled,
    /// The process should terminate; the session itself does not change.
    ExitRequested,
}

/// The whole game state of one process: session-scoped entities plus the
/// process-scoped record.
#[derive(Debug)]
pub struct GameSession {
    pub app_state: AppState,
    pub game_state: GameState,
    pub snake: Snake,
    pub food: Option<Food>,
    pub food_timer: FoodTimer,
    pub score: Score,
    pub record: Record,
}

/// A freshly (re)started snake, as `setup_snake` builds it.
pub open spec fn snake_is_fresh(s: Snake) -> bool {
    &&& s.body@ == initial_body()
    &&& s.move_direction == Direction::Right
    &&& s.move_timer == (TickTimer {
        period_ms: MOVE_INTERVAL_MS,
        elapsed_ms: 0,
        mode: TimerMode::Repeating,
        paused: false,
        finished: false,
    })
}

/// A freshly started food countdown.
pub open spec fn food_timer_is_fresh(t: FoodTimer) -> bool {
    t.0 == (TickTimer {
        period_ms: FOOD_DELAY_MS,
        elapsed_ms: 0,
        mode: TimerMode::Once,
        paused: false,
        finished: false,
    })
}

impl GameSession {
    /// Whether the session is inside a game (playing, paused, or about to
    /// restart), as opposed to sitting in a menu.
    pub open spec fn session_in_game(self) -> bool {
        self.game_state == GameState::Playing || self.game_state == GameState::Paused
            || self.game_state == GameState::Restarted
    }

    /// The session invariant. Every constructor establishes it and every
    /// operation preserves it: the snake body is committed (non-empty,
    /// inside the walls, self-overlap free), at most one food item exists
    /// and never on a cell of the body, an active food item excludes a
    /// pending spawn countdown, an in-game mode implies the in-game
    /// screen, and while in a game the score counts exactly the meals
    /// that grew the body.
    pub open spec fn wf(self) -> bool {
        &&& self.snake.wf()
        &&& self.food_timer.0.wf()
        &&& self.food_timer.0.mode == TimerMode::Once
        &&& (self.session_in_game() ==> self.app_state == AppState::InGame)
        &&& (match self.food {
            Some(f) => {
                &&& in_spawn_range(f.0)
                &&& !self.snake.body@.contains(f.0)
                &&& self.food_timer.0.finished
            },
            None => true,
        })
        &&& (self.session_in_game() ==> self.score.0 + initial_body().len() == self.snake.body@.len())
    }

    /// The cell the head would move to next: one step from the head in the
    /// current facing.
    pub open spec fn candidate_head(self) -> Point {
        Point {
            x: step_x(self.snake.body@[0].x as int, self.snake.move_direction) as i32,
            y: step_y(self.snake.body@[0].y as int, self.snake.move_direction) as i32,
        }
    }

    /// Whether the next move is fatal: the candidate head is beyond a wall
    /// or on a cell some body segment occupies — and only then.
    pub open spec fn fatal(self) -> bool {
        hits_wall_spec(self.candidate_head()) || self.snake.body@.contains(self.candidate_head())
    }

    /// Whether the next move lands on the active food item.
    pub open spec fn eats(self) -> bool {
        match self.food {
            Some(f) => f.0 == self.candidate_head(),
            None => false,
        }
    }

    /// The collision and survival check, run once per tick before any
    /// mutation commits: a candidate is a hit exactly when it lies beyond
    /// a wall or on a cell an existing segment occupies — and for no
    /// other candidate.
    pub fn check_collision(&self, candidate: Point) -> (hit: bool)
        ensures
            hit == (hits_wall_spec(candidate) || self.snake.body@.contains(candidate)),
    {
        hits_wall(candidate) || self.snake.hits_body(candidate)
    }

    /// A fresh process: main menu, no running session, record zero.
    pub fn new() -> (s: GameSession)
        ensures
            s.wf(),
            s.app_state == AppState::MainMenu,
            s.game_state == GameState::Quitted,
            snake_is_fresh(s.snake),
            s.food is None,
            food_timer_is_fresh(s.food_timer),
            s.score.0 == 0,
            s.record.0 == 0,
    {
        GameSession {
            app_state: AppState::MainMenu,
            game_state: GameState::Quitted,
            snake: setup_snake(),
            food: None,
            food_timer: FoodTimer(TickTimer::new(FOOD_DELAY_MS, TimerMode::Once)),
            score: Score(0),
            record: Record(0),
        }
    }

    /// Discard the current snake and food and set up fresh ones, leaving
    /// modes, score and record alone.
    fn reset_board(&mut self)
        ensures
            snake_is_fresh(final(self).snake),
            final(self).snake.wf(),
            final(self).food is None,
            food_timer_is_fresh(final(self).food_timer),
            final(self).food_timer.0.wf(),
            final(self).app_state == old(self).app_state,
            final(self).game_state == old(self).game_state,
            final(self).score == old(self).score,
            final(self).record == old(self).record,
    {
        self.snake = setup_snake();
        self.food = None;
        self.food_timer = FoodTimer(TickTimer::new(FOOD_DELAY_MS, TimerMode::Once));
    }

    /// MainMenu --StartGame--> InGame+Playing: initializes the snake,
    /// clears stale food, resets the score, and keeps the record. From any
    /// other mode the request is refused and nothing changes.
    pub fn start_game(&mut self) -> (r: Result<(), StateError>)
        requires
            old(self).wf(),
        ensures
            final(self).wf(),
            final(self).record == old(self).record,
            old(self).app_state == AppState::MainMenu ==> {
                &&& r == Ok::<(), StateError>(())
                &&& final(self).app_state == AppState::InGame
                &&& final(self).game_state == GameState::Playing
                &&& snake_is_fresh(final(self).snake)
                &&& final(self).food is None
                &&& food_timer_is_fresh(final(self).food_timer)
                &&& final(self).score.0 == 0
            },
            old(self).app_state != AppState::MainMenu ==> {
                &&& r == Err::<(), StateError>(StateError::InvalidTransition)
                &&& *final(self) == *old(self)
            },
    {
        if self.app_state == AppState::MainMenu {
            self.reset_board();
            self.score.clear_score();
            self.app_state = AppState::InGame;
            self.game_state = GameState::Playing;
            Ok(())
        } else {
            Err(StateError::InvalidTransition)
        }
    }

    /// Any mode --RestartGame--> InGame+Restarted: re-initializes the
    /// snake and food exactly as a fresh start and resets the score, but
    /// keeps the record. `play_game` then moves the session on to Playing.
    pub fn restart_game(&mut self)
        requires
            old(self).wf(),
        ensures
            final(self).wf(),
            final(self).record == old(self).record,
            final(self).app_state == AppState::InGame,
            final(self).game_state == GameState::Restarted,
            snake_is_fresh(final(self).snake),
            final(self).food is None,
            food_timer_is_fresh(final(self).food_timer),
            final(self).score.0 == 0,
    {
        self.reset_board();
        self.score.clear_score();
        self.app_state = AppState::InGame;
        self.game_state = GameState::Restarted;
    }

    /// InGame+Restarted --(auto)--> Playing. From any other mode the
    /// request is refused and nothing changes.
    pub fn play_game(&mut self) -> (r: Result<(), StateError>)
        requires
            old(self).wf(),
        ensures
            final(self).wf(),
            final(self).record == old(self).record,
            old(self).game_state == GameState::Restarted ==> {
                &&& r == Ok::<(), StateError>(())
                &&& final(self).game_state == GameState::Playing
                &&& final(self).app_state == old(self).app_state
                &&& final(self).snake == old(self).snake
                &&& final(self).food == old(self).food
                &&& final(self).food_timer == old(self).food_timer
                &&& final(self).score == old(self).score
            },
            old(self).game_state != GameState::Restarted ==> {
                &&& r == Err::<(), StateError>(StateError::InvalidTransition)
                &&& *final(self) == *old(self)
            },
    {
        if self.game_state == GameState::Restarted {
            self.game_state = GameState::Playing;
            Ok(())
        } else {
            Err(StateError::InvalidTransition)
        }
    }

    /// GameOver --BackToMainMenu--> MainMenu+Quitted: the dead snake and
    /// any stale food are discarded so the next start observes a clean
    /// field; score and record are kept. From any other mode the request
    /// is refused and nothing changes.
    pub fn back_to_main_menu(&mut self) -> (r: Result<(), StateError>)
        requires
            old(self).wf(),
        ensures
            final(self).wf(),
            final(self).record == old(self).record,
            old(self).app_state == AppState::GameOver ==> {
                &&& r == Ok::<(), StateError>(())
                &&& final(self).app_state == AppState::MainMenu
                &&& final(self).game_state == GameState::Quitted
                &&& snake_is_fresh(final(self).snake)
                &&& final(self).food is None
                &&& food_timer_is_fresh(final(self).food_timer)
                &&& final(self).score == old(self).score
            },
            old(self).app_state != AppState::GameOver ==> {
                &&& r == Err::<(), StateError>(StateError::InvalidTransition)
                &&& *final(self) == *old(self)
            },
    {
        if self.app_state == AppState::GameOver {
            self.reset_board();
            self.app_state = AppState::MainMenu;
            self.game_state = GameState::Quitted;
            Ok(())
        } else {
            Err(StateError::InvalidTransition)
        }
    }

    /// Toggle pause: Playing --PauseKey--> Paused freezes the move timer
    /// (no tick advances while paused); Paused --PauseKey--> Playing
    /// resumes it from where it stopped. From any other mode the request
    /// is refused and nothing changes. The caller debounces the pause key
    /// itself.
    pub fn pause_game(&mut self) -> (r: Result<(), StateError>)
        requires
            old(self).wf(),
        ensures
            final(self).wf(),
            final(self).record == old(self).record,
            old(self).game_state == GameState::Playing ==> {
                &&& r == Ok::<(), StateError>(())
                &&& final(self).game_state == GameState::Paused
                &&& final(self).snake.move_timer == (TickTimer { paused: true, ..old(self).snake.move_timer })
            },
            old(self).game_state == GameState::Paused ==> {
                &&& r == Ok::<(), StateError>(())
                &&& final(self).game_state == GameState::Playing
                &&& final(self).snake.move_timer == (TickTimer { paused: false, ..old(self).snake.move_timer })
            },
            old(self).game_state == GameState::Playing || old(self).game_state == GameState::Paused ==> {
                &&& final(self).app_state == old(self).app_state
                &&& final(self).snake.body == old(self).snake.body
                &&& final(self).snake.move_direction == old(self).snake.move_direction
                &&& final(self).food == old(self).food
                &&& final(self).food_timer == old(self).food_timer
                &&& final(self).score == old(self).score
            },
            old(self).game_state != GameState::Playing && old(self).game_state != GameState::Paused ==> {
                &&& r == Err::<(), StateError>(StateError::InvalidTransition)
                &&& *final(self) == *old(self)
            },
    {
        if self.game_state == GameState::Playing {
            self.snake.move_timer.pause();
            self.game_state = GameState::Paused;
            Ok(())
        } else if self.game_state == GameState::Paused {
            self.snake.move_timer.unpause();
            self.game_state = GameState::Playing;
            Ok(())
        } else {
            Err(StateError::InvalidTransition)
        }
    }

    /// Apply a steering request while Playing; outside Playing the request
    /// is ignored. The request is accepted exactly when it is not the
    /// reverse of the current facing; an accepted request becomes the new
    /// facing (the caller may turn it into a direction signal for the
    /// audio collaborator).
    pub fn contral_snake(&mut self, requested: Direction) -> (accepted: bool)
        requires
            old(self).wf(),
        ensures
            final(self).wf(),
            final(self).record == old(self).record,
            old(self).game_state != GameState::Playing ==> !accepted && *final(self) == *old(self),
            old(self).game_state == GameState::Playing ==> {
                &&& accepted == (requested != opposite_spec(old(self).snake.move_direction))
                &&& final(self).snake.move_direction == (if accepted { requested } else { old(self).snake.move_direction })
                &&& final(self).snake.body == old(self).snake.body
                &&& final(self).snake.move_timer == old(self).snake.move_timer
                &&& final(self).app_state == old(self).app_state
                &&& final(self).game_state == old(self).game_state
                &&& final(self).food == old(self).food
                &&& final(self).food_timer == old(self).food_timer
                &&& final(self).score == old(self).score
            },
    {
        if self.game_state == GameState::Playing {
            self.snake.contral_snake(requested)
        } else {
            false
        }
    }
}

/// What one call of `generate_food` does: outside Playing, nothing. While
/// Playing, the spawn countdown advances by the frame delta; when it runs
/// out and no food is active, a spawn is attempted: on success the new
/// item stands on a free cell of the spawn range, and on a spent retry
/// budget the countdown starts over and the caller is told no space was
/// found.
pub open spec fn generate_food_post(
    pre: GameSession,
    post: GameSession,
    delta_ms: u64,
    outcome: SpawnOutcome,
) -> bool {
    if pre.game_state != GameState::Playing {
        post == pre && outcome == SpawnOutcome::NotDue
    } else {
        let fired = pre.food_timer.0.spec_fires(delta_ms);
        let ticked = pre.food_timer.0.spec_tick(delta_ms);
        &&& post.snake == pre.snake
        &&& post.app_state == pre.app_state
        &&& post.game_state == pre.game_state
        &&& post.score == pre.score
        &&& post.record == pre.record
        &&& (!(fired && pre.food is None) ==> {
            &&& outcome == SpawnOutcome::NotDue
            &&& post.food == pre.food
            &&& post.food_timer.0 == ticked
        })
        &&& ((fired && pre.food is None) ==> match outcome {
            SpawnOutcome::NotDue => false,
            SpawnOutcome::Spawned(p) => {
                &&& in_spawn_range(p)
                &&& !pre.snake.body@.contains(p)
                &&& post.food == Some(Food(p))
                &&& post.food_timer.0 == ticked
            },
            SpawnOutcome::NoSpace => {
                &&& post.food is None
                &&& post.food_timer.0 == (TickTimer {
                    elapsed_ms: 0,
                    paused: false,
                    finished: false,
                    ..ticked
                })
            },
        })
    }
}

/// What one call of `move_snake` does. Outside Playing, nothing. While
/// Playing the move timer always advances by the frame delta, and nothing
/// else happens unless it fires. On a fired tick the candidate head is
/// computed and validated before any mutation commits: a fatal candidate
/// ends the session (record committed to the maximum of record and score,
/// body untouched); a food match grows the body onto the candidate,
/// increments the score, despawns the food and restarts the spawn
/// countdown; otherwise the body advances (tail cell dropped, candidate
/// prepended). Wall and self checks run before the food check, so a fatal
/// move takes precedence over feeding.
pub open spec fn move_snake_post(
    pre: GameSession,
    post: GameSession,
    delta_ms: u64,
    outcome: TickOutcome,
) -> bool {
    if pre.game_state != GameState::Playing {
        post == pre && outcome == TickOutcome::Idle
    } else {
        let fired = pre.snake.move_timer.spec_fires(delta_ms);
        let ticked = pre.snake.move_timer.spec_tick(delta_ms);
        let c = pre.candidate_head();
        &&& post.snake.move_timer == ticked
        &&& (!fired ==> {
            &&& outcome == TickOutcome::Idle
            &&& post.snake.body == pre.snake.body
            &&& post.snake.move_direction == pre.snake.move_direction
            &&& post.app_state == pre.app_state
            &&& post.game_state == pre.game_state
            &&& post.food == pre.food
            &&& post.food_timer == pre.food_timer
            &&& post.score == pre.score
            &&& post.record == pre.record
        })
        &&& ((fired && pre.fatal()) ==> {
            &&& outcome == TickOutcome::Died
            &&& post.app_state == AppState::GameOver
            &&& post.game_state == GameState::Quitted
            &&& post.record.0 == (if pre.score.0 > pre.record.0 { pre.score.0 } else { pre.record.0 })
            &&& post.snake.body == pre.snake.body
            &&& post.snake.move_direction == pre.snake.move_direction
            &&& post.food == pre.food
            &&& post.food_timer == pre.food_timer
            &&& post.score == pre.score
        })
        &&& ((fired && !pre.fatal() && pre.eats()) ==> {
            &&& outcome == TickOutcome::Ate
            &&& post.snake.body@ == pre.snake.body@.insert(0, c)
            &&& post.snake.move_direction == pre.snake.move_direction
            &&& post.app_state == pre.app_state
            &&& post.game_state == pre.game_state
            &&& post.food is None
            &&& post.food_timer.0 == (TickTimer {
                elapsed_ms: 0,
                paused: false,
                finished: false,
                ..pre.food_timer.0
            })
            &&& post.score.0 == pre.score.0 + 1
            &&& post.record == pre.record
        })
        &&& ((fired && !pre.fatal() && !pre.eats()) ==> {
            &&& outcome == TickOutcome::Moved
            &&& post.snake.body@ == pre.snake.body@.drop_last().insert(0, c)
            &&& post.snake.move_direction == pre.snake.move_direction
            &&& post.app_state == pre.app_state
            &&& post.game_state == pre.game_state
            &&& post.food == pre.food
            &&& post.food_timer == pre.food_timer
            &&& post.score == pre.score
            &&& post.record == pre.record
        })
    }
}

impl GameSession {
    /// Advance the food-spawn countdown by one frame and spawn a food item
    /// when it is due; see `generate_food_post` for the full contract.
    pub fn generate_food(&mut self, delta_ms: u64) -> (outcome: SpawnOutcome)
        requires
            old(self).wf(),
        ensures
            final(self).wf(),
            final(self).record == old(self).record,
            generate_food_post(*old(self), *final(self), delta_ms, outcome),
    {
        if self.game_state != GameState::Playing {
            return SpawnOutcome::NotDue;
        }
        let fired = self.food_timer.0.tick(delta_ms);
        if !fired {
            return SpawnOutcome::NotDue;
        }
        if self.food.is_some() {
            return SpawnOutcome::NotDue;
        }
        match new_food(&self.snake.body) {
            Some(food) => {
                self.food = Some(food);
                SpawnOutcome::Spawned(food.0)
            },
            None => {
                self.food_timer.0.reset();
                SpawnOutcome::NoSpace
            },
        }
    }

    /// Run one movement frame: tick the move timer, and when it fires,
    /// validate the candidate head and commit exactly one of death, growth
    /// or an ordinary advance; see `move_snake_post` for the full
    /// contract.
    pub fn move_snake(&mut self, delta_ms: u64) -> (outcome: TickOutcome)
        requires
            old(self).wf(),
        ensures
            final(self).wf(),
            final(self).record.0 >= old(self).record.0,
            move_snake_post(*old(self), *final(self), delta_ms, outcome),
    {
        if self.game_state != GameState::Playing {
            return TickOutcome::Idle;
        }
        let fired = self.snake.move_timer.tick(delta_ms);
        if !fired {
            return TickOutcome::Idle;
        }
        let head = self.snake.head();
        let candidate = head.from_direction(&self.snake.move_direction);
        proof {
            assert(candidate == old(self).candidate_head());
        }
        let hit = self.check_collision(candidate);
        if hit {
            self.record.commit(&self.score);
            self.app_state = AppState::GameOver;
            self.game_state = GameState::Quitted;
            return TickOutcome::Died;
        }
        let ate = match self.food {
            Some(f) => f.0 == candidate,
            None => false,
        };
        if ate {
            self.snake.grow(candidate);
            proof {
                lemma_body_len_bounded(old(self).snake.body@);
                lemma_prepend_keeps_distinct(old(self).snake.body@, candidate);
            }
            self.score.0 = self.score.0 + 1;
            self.food = None;
            self.food_timer.0.reset();
            TickOutcome::Ate
        } else {
            self.snake.advance(candidate);
            proof {
                lemma_shift_keeps_distinct(old(self).snake.body@, candidate);
                let post_body = old(self).snake.body@.drop_last().insert(0, candidate);
                old(self).snake.body@.drop_last().insert_ensures(0, candidate);
                assert forall|i: int| 0 <= i < post_body.len() implies in_bounds(#[trigger] post_body[i]) by {
                    if i > 0 {
                        assert(post_body[i] == old(self).snake.body@.drop_last()[i - 1]);
                        assert(old(self).snake.body@.drop_last()[i - 1] == old(self).snake.body@[i - 1]);
                    }
                }
                assert(match self.food {
                    Some(f) => !post_body.contains(f.0),
                    None => true,
                }) by {
                    match self.food {
                        Some(f) => {
                            if post_body.contains(f.0) {
                                let k = choose|k: int| 0 <= k < post_body.len() && post_body[k] == f.0;
                                if k > 0 {
                                    assert(post_body[k] == old(self).snake.body@[k - 1]);
                                    assert(old(self).snake.body@.contains(f.0));
                                }
                            }
                        },
                        None => {},
                    }
                }
            }
            TickOutcome::Moved
        }
    }

    /// Despawn any active food item and halt the spawn countdown, as when
    /// a session is dismantled.
    pub fn clear_food(&mut self)
        requires
            old(self).wf(),
        ensures
            final(self).wf(),
            final(self).record == old(self).record,
            final(self).food is None,
            final(self).food_timer.0 == (TickTimer { paused: true, ..old(self).food_timer.0 }),
            final(self).snake == old(self).snake,
            final(self).app_state == old(self).app_state,
            final(self).game_state == old(self).game_state,
            final(self).score == old(self).score,
    {
        self.food = None;
        self.food_timer.0.pause();
    }

    /// Route one menu click. StartGame and BackToMainMenu are refused
    /// outside their legal modes; RestartGame is legal from anywhere; Quit
    /// leaves the session alone and asks the caller to terminate.
    pub fn click_button(&mut self, action: MenuButtonAction) -> (r: Result<ClickOutcome, StateError>)
        requires
            old(self).wf(),
        ensures
            final(self).wf(),
            final(self).record == old(self).record,
            action == MenuButtonAction::StartGame ==> {
                &&& (r == Ok::<ClickOutcome, StateError>(ClickOutcome::Handled) <==> old(self).app_state == AppState::MainMenu)
                &&& (old(self).app_state == AppState::MainMenu ==> {
                    &&& final(self).app_state == AppState::InGame
                    &&& final(self).game_state == GameState::Playing
                    &&& snake_is_fresh(final(self).snake)
                    &&& final(self).food is None
                    &&& food_timer_is_fresh(final(self).food_timer)
                    &&& final(self).score.0 == 0
                })
                &&& (old(self).app_state != AppState::MainMenu ==> r == Err::<ClickOutcome, StateError>(StateError::InvalidTransition) && *final(self) == *old(self))
            },
            action == MenuButtonAction::RestartGame ==> {
                &&& r == Ok::<ClickOutcome, StateError>(ClickOutcome::Handled)
                &&& final(self).app_state == AppState::InGame
                &&& final(self).game_state == GameState::Restarted
                &&& snake_is_fresh(final(self).snake)
                &&& final(self).food is None
                &&& food_timer_is_fresh(final(self).food_timer)
                &&& final(self).score.0 == 0
            },
            action == MenuButtonAction::BackToMainMenu ==> {
                &&& (r == Ok::<ClickOutcome, StateError>(ClickOutcome::Handled) <==> old(self).app_state == AppState::GameOver)
                &&& (old(self).app_state == AppState::GameOver ==> {
                    &&& final(self).app_state == AppState::MainMenu
                    &&& final(self).game_state == GameState::Quitted
                    &&& snake_is_fresh(final(self).snake)
                    &&& final(self).food is None
                    &&& final(self).score == old(self).score
                })
                &&& (old(self).app_state != AppState::GameOver ==> r == Err::<ClickOutcome, StateError>(StateError::InvalidTransition) && *final(self) == *old(self))
            },
            action == MenuButtonAction::Quit ==> {
                &&& r == Ok::<ClickOutcome, StateError>(ClickOutcome::ExitRequested)
                &&& *final(self) == *old(self)
            },
    {
        match action {
            MenuButtonAction::StartGame => {
                match self.start_game() {
                    Ok(_) => Ok(ClickOutcome::Handled),
                    Err(e) => Err(e),
                }
            },
            MenuButtonAction::RestartGame => {
                self.restart_game();
                Ok(ClickOutcome::Handled)
            },
            MenuButtonAction::BackToMainMenu => {
                match self.back_to_main_menu() {
                    Ok(_) => Ok(ClickOutcome::Handled),
                    Err(e) => Err(e),
                }
            },
            MenuButtonAction::Quit => Ok(ClickOutcome::ExitRequested),
        }
    }
}

/// Prepending a cell no segment occupies keeps the body self-overlap free.
proof fn lemma_prepend_keeps_distinct(body: Seq<Point>, h: Point)
    requires
        body.no_duplicates(),
        !body.contains(h),
    ensures
        body.insert(0, h).no_duplicates(),
{
    let grown = body.insert(0, h);
    body.insert_ensures(0, h);
    assert forall|i: int, j: int|
        0 <= i < grown.len() && 0 <= j < grown.len() && i != j implies grown[i] != grown[j] by {
        if i > 0 && j > 0 {
            assert(grown[i] == body[i - 1] && grown[j] == body[j - 1]);
        } else if i == 0 {
            assert(grown[j] == body[j - 1]);
            if body[j - 1] == h {
                assert(body.contains(h));
            }
        } else {
            assert(grown[i] == body[i - 1]);
            if body[i - 1] == h {
                assert(body.contains(h));
            }
        }
    }
}

/// Dropping the tail and prepending a cell no segment occupies keeps the
/// body self-overlap free.
proof fn lemma_shift_keeps_distinct(body: Seq<Point>, h: Point)
    requires
        body.len() >= 1,
        body.no_duplicates(),
        !body.contains(h),
    ensures
        body.drop_last().insert(0, h).no_duplicates(),
{
    let trimmed = body.drop_last();
    assert(trimmed.no_duplicates());
    assert(!trimmed.contains(h)) by {
        if trimmed.contains(h) {
            let k = choose|k: int| 0 <= k < trimmed.len() && trimmed[k] == h;
            assert(body[k] == h);
            assert(body.contains(h));
        }
    }
    lemma_prepend_keeps_distinct(trimmed, h);
}

} // verus!
