//! Core engine of a grid-based snake game: discrete playfield geometry,
//! directional movement, snake body growth and shifting, food placement,
//! wall and self collision rules, the menu/play/pause/game-over state
//! machine, score and record tracking, and the fixed-interval tick timer.
//!
//! Rendering, audio and input devices are outside collaborators: they hand
//! this library plain values (directions, time deltas, button actions) and
//! read back plain values (cell coordinates, draw offsets, outcomes).

pub mod common;
pub mod food;
pub mod grid;
pub mod score;
pub mod session;
pub mod snake;
pub mod timer;
