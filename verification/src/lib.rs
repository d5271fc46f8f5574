//! A verified core for a grid-based snake game.
//!
//! The library holds the complete game-state simulation: the snake's segment
//! chain and heading, board and wall geometry, the per-tick update steps
//! (input resolution, movement, game-over reset, collision resolution,
//! growth, food spawning) and the orchestrator that runs them in order. A
//! presentation layer drives it by sampling input, calling [`state::GameState`]
//! methods once per fixed-rate tick, and drawing the resulting positions.

pub mod board;
pub mod direction;
pub mod food;
pub mod game;
pub mod geometry;
pub mod state;
pub mod walls;
