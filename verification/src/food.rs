//! The food: one cell of the board, shown by a glyph that blinks.

use vstd::prelude::*;
use crate::{on_board, Tickable, NUM_COLS, NUM_ROWS};
use crate::frame::{Drawable, Frame, Glyph};

verus! {

/// The two phases of the blinking food.
#[derive(Copy, Clone, Debug, PartialEq, Eq, Structural)]
pub enum Blink {
    Dot,
    Ring,
}

impl Blink {
    /// The other phase.
    pub open spec fn toggled(self) -> Blink {
        match self {
            Blink::Dot => Blink::Ring,
            Blink::Ring => Blink::Dot,
        }
    }

    /// The glyph that shows this phase.
    pub open spec fn glyph(self) -> Glyph {
        match self {
            Blink::Dot => Glyph::FoodDot,
            Blink::Ring => Glyph::FoodRing,
        }
    }
}

pub struct Food {
    pub position: (usize, usize),
    pub blink: Blink,
}

impl Food {
    /// The food that every session starts with: in its first phase, one row
    /// above the middle of the board.
    pub open spec fn new_spec() -> Food {
        Food { position: (NUM_COLS / 2, (NUM_ROWS / 2 - 1) as usize), blink: Blink::Dot }
    }

    #[verifier::when_used_as_spec(new_spec)]
    pub fn new() -> (food: Food)
        ensures
            food == Food::new_spec(),
    {
        Food { position: (NUM_COLS / 2, NUM_ROWS / 2 - 1), blink: Blink::Dot }
    }

    /// The glyph that the food shows now.
    pub fn current_glyph(&self) -> (glyph: Glyph)
        ensures
            glyph == self.blink.glyph(),
    {
        match self.blink {
            Blink::Dot => Glyph::FoodDot,
            Blink::Ring => Glyph::FoodRing,
        }
    }
}

impl Tickable for Food {
    open spec fn can_tick(&self) -> bool {
        true
    }

    /// A tick switches the phase and leaves the food where it is.
    open spec fn ticks_to(&self, next: &Self) -> bool {
        next.position == self.position && next.blink == self.blink.toggled()
    }

    fn tick(&mut self) {
        self.blink =
        match self.blink {
            Blink::Dot => Blink::Ring,
            Blink::Ring => Blink::Dot,
        };
    }
}

impl Drawable for Food {
    open spec fn can_draw(&self) -> bool {
        on_board(self.position.0 as int, self.position.1 as int)
    }

    /// The cell of the food shows its glyph; every other cell what it showed
    /// before.
    open spec fn drawn_glyph(&self, before: &Frame, col: int, row: int) -> Glyph {
        if col == self.position.0 && row == self.position.1 {
            self.blink.glyph()
        } else {
            before.glyph_at(col, row)
        }
    }

    fn draw(&self, frame: &mut Frame) {
        let glyph = self.current_glyph();
        frame.set(self.position.0, self.position.1, glyph);
    }
}

} // verus!
