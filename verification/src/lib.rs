//! A snake game on a fixed grid: the board, the snake, the food, the diffing
//! renderer and the rules of one session, each with a verified contract.

use vstd::prelude::*;

pub mod frame;
pub mod snake;
pub mod food;
pub mod render;
pub mod ticker;
pub mod game;

verus! {

/// Milliseconds between two simulation ticks.
pub const TICK_INTERVAL: u64 = 300;

/// Number of rows of the board.
pub const NUM_ROWS: usize = 20;

/// Number of columns of the board.
pub const NUM_COLS: usize = 30;

/// One of the four headings a snake can take.
#[derive(Copy, Clone, Debug, PartialEq, Eq, Structural)]
pub enum Direction {
    Up,
    Down,
    Left,
    Right,
}

impl Direction {
    /// The heading that points the other way.
    pub open spec fn opposite(self) -> Direction {
        match self {
            Direction::Up => Direction::Down,
            Direction::Down => Direction::Up,
            Direction::Left => Direction::Right,
            Direction::Right => Direction::Left,
        }
    }
}

/// Whether `(col, row)` names a cell of the board.
pub open spec fn on_board(col: int, row: int) -> bool {
    0 <= col < NUM_COLS && 0 <= row < NUM_ROWS
}

/// Something that advances by one step per simulation tick.
pub trait Tickable {
    /// The states from which a tick may be taken.
    spec fn can_tick(&self) -> bool;

    /// Whether one tick leads from this state to `next`.
    spec fn ticks_to(&self, next: &Self) -> bool;

    fn tick(&mut self)
        requires
            old(self).can_tick(),
        ensures
            old(self).ticks_to(final(self)),
    ;
}

} // verus!
