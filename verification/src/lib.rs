//! A verified core for a grid-based snake game.
//!
//! The library holds the game rules alone: the board geometry, the snake's
//! movement, growth and collision rules, food placement and scoring. The
//! rendering and windowing layer is an external collaborator that drives the
//! core through [`game::Game::tick`] and [`game::Game::set_direction`] and
//! reads the state back through the snapshot accessors.

pub mod board;
pub mod food;
pub mod game;
pub mod snake;
