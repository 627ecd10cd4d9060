//! Orders to the screen, and what the caller does after a turn.

use crate::pos::Cell;
use vstd::prelude::*;

verus! {

/// Colour of the frame round the grid and of the score.
pub const FRAME_COLOR: u8 = 6;

/// Colour of the food.
pub const FOOD_COLOR: u8 = 11;

/// Colour of the tail.
pub const TAIL_COLOR: u8 = 2;

/// Colour of the head.
pub const HEAD_COLOR: u8 = 10;

/// Colour of the mark of a fatal loss.
pub const FATAL_COLOR: u8 = 1;

/// An order to the screen. Columns and rows are those of the screen, which
/// lie one past those of the grid: the frame takes the first of each. They
/// are wide enough for every grid, whatever the screen can show.
#[derive(PartialEq, Eq, Structural, Clone, Copy, Debug)]
pub enum Draw {
    /// Wipe the screen.
    Clear,
    /// Put the cursor in the top left corner.
    Home,
    /// Set the foreground colour.
    Color(u8),
    /// Outline the rectangle between two corners with a character.
    Rect(char, u64, u64, u64, u64),
    /// Write the score at a column and row.
    Score(usize, u64, u64),
    /// Put a character at a column and row.
    Pixel(char, u64, u64),
    /// Report the end of the game and the final score.
    GameOver(usize),
    /// Put the cursor below everything drawn.
    Bottom,
    /// Send what was drawn to the screen.
    Flush,
}

/// What the caller does after a turn.
#[derive(PartialEq, Eq, Debug)]
pub enum Step {
    /// No tick was due: nothing to draw.
    Idle,
    /// A tick ran and the game goes on: carry out the orders.
    Frame(Vec<Draw>),
    /// The game is over: carry out the orders, then leave the process with
    /// the status.
    Exit(i32, Vec<Draw>),
}

/// The screen cell of a grid cell.
pub open spec fn on_screen(c: Cell) -> (u64, u64) {
    ((c.x + 1) as u64, (c.y + 1) as u64)
}

/// The orders after a normal loss: a clean screen and the final score.
pub open spec fn loss_orders(score: usize) -> Seq<Draw> {
    seq![Draw::Clear, Draw::Home, Draw::GameOver(score)]
}

/// The orders after a fatal loss: a red block past the far corner of the
/// frame.
pub open spec fn fatal_orders(max: Cell) -> Seq<Draw> {
    seq![
        Draw::Color(FATAL_COLOR),
        Draw::Rect(
            '!',
            (max.x + 2) as u64,
            (max.y + 2) as u64,
            (max.x + 4) as u64,
            (max.y + 4) as u64,
        ),
    ]
}

} // verus!
