//! Grid movement, collision and win detection for a multiplayer dragon puzzle.
//!
//! Every player steers the head of a dragon over a bounded grid of cells. A head
//! that moves leaves a body segment behind in the cell it vacated; walls, bodies
//! and other heads block the way. The round is won when two heads meet face to
//! face on neighbouring cells.
//!
//! Coordinates: `x` grows to the right and `y` grows upwards, so `Direction::Up`
//! is the step `(0, 1)`. A left turn is a quarter turn counterclockwise.

pub mod action;
pub mod direction;
pub mod dragon;
pub mod grid;
pub mod level;
pub mod movement;
pub mod simulation;
pub mod stage;
pub mod win;
