//! Simulation core of a grid snake game.
//!
//! The crate holds the rules of the game as verified code: how the snake
//! moves, wraps around the edges of the grid and runs into itself, where
//! food may be placed, and when a tick of the simulation is due.
//! Rendering, keyboard polling and process exit are left to the caller.

pub mod direction;
pub mod food;
pub mod game;
pub mod pos;
pub mod screen;
pub mod snake;
pub mod timer;

pub use crate::direction::Direction;
pub use crate::food::Food;
pub use crate::game::{relocate, Command, Game, Key};
pub use crate::pos::Pos;
pub use crate::screen::{Draw, Step};
pub use crate::snake::{Outcome, Snake, Steering};
pub use crate::timer::Timer;
