//! The snake: its body, its heading, and the rules by which it moves.

use std::collections::VecDeque;
use vstd::prelude::*;
use crate::{on_board, Direction, Tickable, NUM_COLS, NUM_ROWS};
use crate::frame::{Drawable, Frame, Glyph};

verus! {

/// The mathematical state of a snake.
pub struct SnakeState {
    /// The occupied cells, tail first and head last.
    pub body: Seq<(usize, usize)>,
    /// The length that the body grows to before its tail starts to follow.
    pub length: nat,
    /// The heading of the last move.
    pub heading: Direction,
    /// The heading asked for, taken up by the next tick.
    pub pending: Direction,
    /// Whether the snake has run into a wall or into itself.
    pub collided: bool,
}

/// The cell one step from `cell` in direction `direction`; it may lie off the
/// board.
pub open spec fn neighbour(cell: (usize, usize), direction: Direction) -> (int, int) {
    match direction {
        Direction::Up => (cell.0 as int, cell.1 - 1),
        Direction::Down => (cell.0 as int, cell.1 + 1),
        Direction::Left => (cell.0 - 1, cell.1 as int),
        Direction::Right => (cell.0 + 1, cell.1 as int),
    }
}

/// Whether one of the first `n` cells of `body` is `(col, row)`.
pub open spec fn covers(body: Seq<(usize, usize)>, n: int, col: int, row: int) -> bool {
    exists|j: int| 0 <= j < n && (#[trigger] body[j]).0 == col && body[j].1 == row
}

/// The glyph of a head that looks in direction `heading`.
pub open spec fn head_glyph(heading: Direction) -> Glyph {
    match heading {
        Direction::Up => Glyph::HeadUp,
        Direction::Down => Glyph::HeadDown,
        Direction::Left => Glyph::HeadLeft,
        Direction::Right => Glyph::HeadRight,
    }
}

/// The snake that every session starts with.
pub open spec fn initial_snake() -> SnakeState {
    SnakeState {
        body: seq![((NUM_COLS / 2) as usize, (NUM_ROWS / 2) as usize)],
        length: 4,
        heading: Direction::Up,
        pending: Direction::Up,
        collided: false,
    }
}

impl SnakeState {
    /// The body is never empty, never longer than the target length, and
    /// lies on the board.
    pub open spec fn wf(self) -> bool {
        &&& 1 <= self.body.len() <= self.length
        &&& forall|i: int|
            0 <= i < self.body.len() ==> on_board(
                (#[trigger] self.body[i]).0 as int,
                self.body[i].1 as int,
            )
    }

    pub open spec fn head(self) -> (usize, usize) {
        self.body.last()
    }

    /// A request to head in `direction`: recorded, unless it would turn the
    /// snake right around.
    pub open spec fn turn(self, direction: Direction) -> SnakeState {
        if direction == self.heading.opposite() {
            self
        } else {
            SnakeState { pending: direction, ..self }
        }
    }

    /// Whether a head cannot go to `(col, row)`: the cell is off the board,
    /// or a body cell other than the present head lies there.
    pub open spec fn blocked(self, col: int, row: int) -> bool {
        !on_board(col, row) || covers(self.body, self.body.len() - 1, col, row)
    }

    /// The body once `cell` has become its head: the tail goes when the body
    /// would outgrow the target length.
    pub open spec fn extended(self, cell: (usize, usize)) -> Seq<(usize, usize)> {
        let grown = self.body.push(cell);
        if grown.len() > self.length {
            grown.subrange(1, grown.len() as int)
        } else {
            grown
        }
    }

    /// An attempt to put the head at `(col, row)`.
    pub open spec fn place_head(self, col: int, row: int) -> SnakeState {
        if self.blocked(col, row) {
            SnakeState { collided: true, ..self }
        } else {
            SnakeState { body: self.extended((col as usize, row as usize)), ..self }
        }
    }

    /// One step of the head in direction `direction`.
    pub open spec fn advance(self, direction: Direction) -> SnakeState {
        let target = neighbour(self.head(), direction);
        self.place_head(target.0, target.1)
    }

    /// One tick: the pending heading becomes the heading, and the head takes
    /// one step that way.
    pub open spec fn tick(self) -> SnakeState {
        SnakeState { heading: self.pending, ..self }.advance(self.pending)
    }

    /// The same snake with its target length raised by one.
    pub open spec fn grown(self) -> SnakeState {
        SnakeState { length: self.length + 1, ..self }
    }
}

pub struct Snake {
    body: VecDeque<(usize, usize)>,
    length: usize,
    current_direction: Direction,
    next_direction: Direction,
    has_collided: bool,
}

impl View for Snake {
    type V = SnakeState;

    closed spec fn view(&self) -> SnakeState {
        SnakeState {
            body: self.body@,
            length: self.length as nat,
            heading: self.current_direction,
            pending: self.next_direction,
            collided: self.has_collided,
        }
    }
}

impl Snake {
    pub open spec fn wf(&self) -> bool {
        self@.wf()
    }

    pub fn new() -> (snake: Snake)
        ensures
            snake@ == initial_snake(),
            snake.wf(),
    {
        let mut body: VecDeque<(usize, usize)> = VecDeque::with_capacity(NUM_COLS * NUM_ROWS);
        body.push_back((NUM_COLS / 2, NUM_ROWS / 2));
        assert(body@ =~= initial_snake().body);
        Snake {
            body,
            length: 4,
            current_direction: Direction::Up,
            next_direction: Direction::Up,
            has_collided: false,
        }
    }

    pub fn has_collided(&self) -> (collided: &bool)
        ensures
            *collided == self@.collided,
    {
        &self.has_collided
    }

    /// The target length.
    pub fn length(&self) -> (length: usize)
        ensures
            length == self@.length,
    {
        self.length
    }

    /// The heading of the last move.
    pub fn heading(&self) -> (heading: Direction)
        ensures
            heading == self@.heading,
    {
        self.current_direction
    }

    /// Raises the target length by one.
    pub fn grow(&mut self)
        requires
            old(self).wf(),
            old(self)@.length < usize::MAX,
        ensures
            final(self)@ == old(self)@.grown(),
            final(self).wf(),
    {
        self.length = self.length + 1;
    }

    pub fn set_direction(&mut self, direction: Direction)
        ensures
            final(self)@ == old(self)@.turn(direction),
    {
        if direction == Direction::Up && self.current_direction == Direction::Down {
            return ;
        }
        if direction == Direction::Down && self.current_direction == Direction::Up {
            return ;
        }
        if direction == Direction::Left && self.current_direction == Direction::Right {
            return ;
        }
        if direction == Direction::Right && self.current_direction == Direction::Left {
            return ;
        }
        self.next_direction = direction;
    }

    pub fn get_head_position(&self) -> (head: (usize, usize))
        requires
            self.wf(),
        ensures
            head == self@.head(),
    {
        let last: usize = self.body.len() - 1;
        (self.body[last].0, self.body[last].1)
    }

    pub fn set_head_position(&mut self, position: (isize, isize))
        requires
            old(self).wf(),
        ensures
            final(self)@ == old(self)@.place_head(position.0 as int, position.1 as int),
            final(self).wf(),
    {
        if position.0 < 0 || position.0 >= NUM_COLS as isize || position.1 < 0 || position.1
            >= NUM_ROWS as isize {
            self.has_collided = true;
            return ;
        }
        let new_position = (position.0 as usize, position.1 as usize);
        let checked: usize = self.body.len() - 1;
        let mut i: usize = 0;
        while i < checked
            invariant
                i <= checked,
                checked == self.body@.len() - 1,
                *self == *old(self),
                old(self).wf(),
                on_board(position.0 as int, position.1 as int),
                new_position.0 == position.0 && new_position.1 == position.1,
                !covers(self.body@, i as int, position.0 as int, position.1 as int),
            decreases checked - i,
        {
            let segment = self.body[i];
            if segment.0 == new_position.0 && segment.1 == new_position.1 {
                self.has_collided = true;
                return ;
            }
            i += 1;
        }
        self.body.push_back(new_position);
        if self.body.len() > self.length {
            self.body.pop_front();
        }
        assert(self.body@ =~= old(self)@.extended(new_position));
    }

    pub fn move_head(&mut self, direction: Direction)
        requires
            old(self).wf(),
        ensures
            final(self)@ == old(self)@.advance(direction),
            final(self).wf(),
    {
        let head = self.get_head_position();
        let head_x: isize = head.0 as isize;
        let head_y: isize = head.1 as isize;
        let target: (isize, isize) = match direction {
            Direction::Up => (head_x, head_y - 1),
            Direction::Down => (head_x, head_y + 1),
            Direction::Left => (head_x - 1, head_y),
            Direction::Right => (head_x + 1, head_y),
        };
        self.set_head_position(target)
    }
}

impl Tickable for Snake {
    open spec fn can_tick(&self) -> bool {
        self.wf()
    }

    open spec fn ticks_to(&self, next: &Self) -> bool {
        next@ == self@.tick() && next.wf()
    }

    fn tick(&mut self) {
        self.current_direction = self.next_direction;
        self.move_head(self.current_direction);
    }
}

impl Drawable for Snake {
    open spec fn can_draw(&self) -> bool {
        self.wf()
    }

    /// The head cell shows the arrow of the heading, every other body cell
    /// the body glyph, and the rest of the board what it showed before.
    open spec fn drawn_glyph(&self, before: &Frame, col: int, row: int) -> Glyph {
        let state = self@;
        if state.head().0 == col && state.head().1 == row {
            head_glyph(state.heading)
        } else if covers(state.body, state.body.len() - 1, col, row) {
            Glyph::Body
        } else {
            before.glyph_at(col, row)
        }
    }

    fn draw(&self, frame: &mut Frame) {
        let last: usize = self.body.len() - 1;
        let mut i: usize = 0;
        while i < last
            invariant
                self.wf(),
                last == self.body@.len() - 1,
                i <= last,
                frame.wf(),
                forall|col: int, row: int|
                    on_board(col, row) ==> #[trigger] frame.glyph_at(col, row) == (if covers(
                        self.body@,
                        i as int,
                        col,
                        row,
                    ) {
                        Glyph::Body
                    } else {
                        old(frame).glyph_at(col, row)
                    }),
            decreases last - i,
        {
            let segment = self.body[i];
            frame.set(segment.0, segment.1, Glyph::Body);
            i += 1;
        }
        let head = self.body[last];
        let glyph = match self.current_direction {
            Direction::Up => Glyph::HeadUp,
            Direction::Down => Glyph::HeadDown,
            Direction::Left => Glyph::HeadLeft,
            Direction::Right => Glyph::HeadRight,
        };
        frame.set(head.0, head.1, glyph);
    }
}

/// A request to turn changes the pending heading to the one asked for,
/// unless that one is the exact opposite of the current heading: then, and
/// only then, the request changes nothing. No request touches anything but
/// the pending heading.
pub proof fn turn_rejects_exactly_reversals(state: SnakeState, direction: Direction)
    ensures
        direction != state.heading.opposite() ==> state.turn(direction).pending == direction,
        direction == state.heading.opposite() ==> state.turn(direction) == state,
        state.turn(direction).pending != state.pending ==> direction
            != state.heading.opposite(),
        state.turn(direction) == (SnakeState { pending: state.turn(direction).pending, ..state }),
{
}

/// A head sent off the board marks the snake as collided and leaves its body
/// as it was.
pub proof fn leaving_the_board_collides(state: SnakeState, col: int, row: int)
    requires
        !on_board(col, row),
    ensures
        state.place_head(col, row).collided,
        state.place_head(col, row).body == state.body,
{
}

/// A head sent onto a body cell other than the present head marks the snake
/// as collided and leaves its body as it was.
pub proof fn running_into_the_body_collides(state: SnakeState, col: int, row: int, i: int)
    requires
        0 <= i < state.body.len() - 1,
        state.body[i].0 == col,
        state.body[i].1 == row,
    ensures
        state.place_head(col, row).collided,
        state.place_head(col, row).body == state.body,
{
}

/// A head sent to a board cell that no body cell before the present head
/// occupies arrives there, and the collision flag stays as it was. The body
/// gets one cell longer until it has the target length, and keeps its length
/// from then on.
pub proof fn free_cell_is_entered(state: SnakeState, col: int, row: int)
    requires
        state.wf(),
        on_board(col, row),
        forall|i: int|
            0 <= i < state.body.len() - 1 ==> !((#[trigger] state.body[i]).0 == col
                && state.body[i].1 == row),
    ensures
        state.place_head(col, row).collided == state.collided,
        state.place_head(col, row).head() == (col as usize, row as usize),
        state.place_head(col, row).body == state.extended((col as usize, row as usize)),
        state.place_head(col, row).body.len() == (if state.body.len() < state.length {
            state.body.len() + 1
        } else {
            state.body.len()
        }),
{
}

/// Placing a head keeps the snake well formed, so its body never outgrows the
/// target length; it never clears the collision flag and never touches
/// the headings or the target length.
pub proof fn place_head_keeps_invariants(state: SnakeState, col: int, row: int)
    requires
        state.wf(),
    ensures
        state.place_head(col, row).wf(),
        state.collided ==> state.place_head(col, row).collided,
        state.place_head(col, row).length == state.length,
        state.place_head(col, row).heading == state.heading,
        state.place_head(col, row).pending == state.pending,
{
}

/// A tick keeps the snake well formed, never clears the collision flag, and
/// moves the head by one cell unless the snake collides.
pub proof fn tick_keeps_invariants(state: SnakeState)
    requires
        state.wf(),
    ensures
        state.tick().wf(),
        state.collided ==> state.tick().collided,
        state.tick().heading == state.pending,
        state.tick().pending == state.pending,
        state.tick().length == state.length,
        state.tick().body != state.body ==> state.tick().head() == (
            neighbour(state.head(), state.pending).0 as usize,
            neighbour(state.head(), state.pending).1 as usize,
        ),
{
    let turned = SnakeState { heading: state.pending, ..state };
    let target = neighbour(turned.head(), state.pending);
    place_head_keeps_invariants(turned, target.0, target.1);
}

} // verus!
