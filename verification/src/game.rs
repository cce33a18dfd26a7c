//! One session of the game: what an input and a tick do to snake and food,
//! how the session ends, and which sound cue belongs to which event.

use vstd::prelude::*;
use rusty_time::Timer;
use crate::{on_board, Direction, Tickable, TICK_INTERVAL};
use crate::food::Food;
use crate::frame::{get_random_empty_position, Drawable, Frame, Glyph};
use crate::snake::{covers, head_glyph, Snake};
use crate::ticker::{
    ticker_advance, ticker_just_finished, ticker_new, ticker_reset, ticker_state, TickerState,
};

verus! {

/// Where a session stands.
#[derive(Copy, Clone, Debug, PartialEq, Eq, Structural)]
pub enum Status {
    Running,
    Won,
    Lost,
    Quit,
}

/// A sound cue, fired by name.
#[derive(Copy, Clone, Debug, PartialEq, Eq, Structural)]
pub enum Cue {
    NewGame,
    Eat,
    YouWin,
    YouLose,
}

/// What a key press means to the game.
#[derive(Copy, Clone, Debug, PartialEq, Eq, Structural)]
pub enum Input {
    Quit,
    Turn(Direction),
    Other,
}

impl Cue {
    /// The name under which the cue is fired.
    pub open spec fn name_text(self) -> Seq<char> {
        match self {
            Cue::NewGame => "new_game"@,
            Cue::Eat => "eat"@,
            Cue::YouWin => "you_win"@,
            Cue::YouLose => "you_lose"@,
        }
    }

    pub fn name(self) -> (name: &'static str)
        ensures
            name@ == self.name_text(),
    {
        match self {
            Cue::NewGame => "new_game",
            Cue::Eat => "eat",
            Cue::YouWin => "you_win",
            Cue::YouLose => "you_lose",
        }
    }
}

impl Status {
    /// The cue that closes a session: one for a win, one for a loss, none
    /// for a session that the player left or that still runs.
    pub open spec fn closing_cue_of(self) -> Option<Cue> {
        match self {
            Status::Won => Some(Cue::YouWin),
            Status::Lost => Some(Cue::YouLose),
            Status::Quit => None,
            Status::Running => None,
        }
    }

    /// The message that closes a session, where it has one.
    pub open spec fn message_text(self) -> Option<Seq<char>> {
        match self {
            Status::Won => Some("Congratulations! You win!"@),
            Status::Lost => Some("You lose! Good luck next time!"@),
            Status::Quit => None,
            Status::Running => None,
        }
    }

    pub fn closing_cue(self) -> (cue: Option<Cue>)
        ensures
            cue == self.closing_cue_of(),
    {
        match self {
            Status::Won => Some(Cue::YouWin),
            Status::Lost => Some(Cue::YouLose),
            Status::Quit => None,
            Status::Running => None,
        }
    }

    pub fn message(self) -> (message: Option<&'static str>)
        ensures
            message is Some <==> self.message_text() is Some,
            message matches Some(text) ==> Some(text@) == self.message_text(),
    {
        match self {
            Status::Won => Some("Congratulations! You win!"),
            Status::Lost => Some("You lose! Good luck next time!"),
            Status::Quit => None,
            Status::Running => None,
        }
    }
}

/// The state of one session.
pub struct Session {
    pub snake: Snake,
    pub food: Food,
    pub status: Status,
    pub ticker: Timer,
}

impl Session {
    /// The snake is well formed and the food lies on the board.
    pub open spec fn wf(&self) -> bool {
        self.snake.wf() && on_board(self.food.position.0 as int, self.food.position.1 as int)
    }

    /// Whether the coming tick runs the snake into a wall or into itself.
    pub open spec fn crashes(&self) -> bool {
        self.snake@.tick().collided
    }

    /// Whether the coming tick brings the head onto the food.
    pub open spec fn eats(&self) -> bool {
        !self.crashes() && self.snake@.tick().head() == self.food.position
    }

    /// Whether `next` and `cue` are what one tick over `frame` may lead to
    /// from here. A crash ends the session as lost. A meal raises the target
    /// length and fires the eating cue; the food then moves to a blank cell of
    /// `frame`, or the session is won where `frame` has none.
    pub open spec fn tick_leads_to(&self, next: &Session, frame: &Frame, cue: Option<Cue>) -> bool {
        let moved = self.snake@.tick();
        &&& next.food.blink == self.food.blink.toggled()
        &&& if self.crashes() {
            &&& next.snake@ == moved
            &&& next.status == Status::Lost
            &&& next.food.position == self.food.position
            &&& cue is None
        } else if !self.eats() {
            &&& next.snake@ == moved
            &&& next.status == self.status
            &&& next.food.position == self.food.position
            &&& cue is None
        } else {
            &&& next.snake@ == moved.grown()
            &&& cue == Some(Cue::Eat)
            &&& if frame.is_full() {
                next.status == Status::Won && next.food.position == self.food.position
            } else {
                &&& next.status == self.status
                &&& on_board(next.food.position.0 as int, next.food.position.1 as int)
                &&& frame.glyph_at(next.food.position.0 as int, next.food.position.1 as int)
                    == Glyph::Blank
            }
        }
    }

    /// A session at its start: the snake and the food in their first places,
    /// and a ticker set to the tick interval.
    pub fn new() -> (session: Session)
        ensures
            session.snake@ == crate::snake::initial_snake(),
            session.food == Food::new_spec(),
            session.status == Status::Running,
            ticker_state(session.ticker) == TickerState::fresh(TICK_INTERVAL as nat),
            session.wf(),
    {
        Session {
            snake: Snake::new(),
            food: Food::new(),
            status: Status::Running,
            ticker: ticker_new(TICK_INTERVAL),
        }
    }

    /// Takes one input: a quit ends the session, a turn is handed to the
    /// snake, anything else is ignored.
    pub fn handle_input(&mut self, input: Input)
        requires
            old(self).wf(),
        ensures
            final(self).wf(),
            final(self).food == old(self).food,
            final(self).ticker == old(self).ticker,
            final(self).snake@ == (match input {
                Input::Turn(direction) => old(self).snake@.turn(direction),
                _ => old(self).snake@,
            }),
            final(self).status == (match input {
                Input::Quit => Status::Quit,
                _ => old(self).status,
            }),
    {
        match input {
            Input::Quit => {
                self.status = Status::Quit;
            },
            Input::Turn(direction) => {
                self.snake.set_direction(direction);
            },
            Input::Other => {},
        }
    }

    /// Settles where the food goes after a meal: to the cell found, or
    /// nowhere, which wins the session.
    pub fn place_food(&mut self, placement: Option<(usize, usize)>)
        ensures
            final(self).snake == old(self).snake,
            final(self).ticker == old(self).ticker,
            final(self).food.blink == old(self).food.blink,
            final(self).food.position == (match placement {
                Some(cell) => cell,
                None => old(self).food.position,
            }),
            final(self).status == (match placement {
                Some(_) => old(self).status,
                None => Status::Won,
            }),
    {
        match placement {
            Some(cell) => {
                self.food.position = cell;
            },
            None => {
                self.status = Status::Won;
            },
        }
    }

    /// One simulation tick: the snake moves, the food blinks, and a crash or
    /// a meal is resolved. Returns the cue to fire, if any.
    pub fn tick(&mut self, frame: &Frame) -> (cue: Option<Cue>)
        requires
            old(self).wf(),
            frame.wf(),
            old(self).snake@.length < usize::MAX,
        ensures
            final(self).wf(),
            final(self).ticker == old(self).ticker,
            old(self).tick_leads_to(final(self), frame, cue),
    {
        self.snake.tick();
        self.food.tick();
        if *self.snake.has_collided() {
            self.status = Status::Lost;
            return None;
        }
        let head = self.snake.get_head_position();
        if head.0 == self.food.position.0 && head.1 == self.food.position.1 {
            self.snake.grow();
            let placement = get_random_empty_position(frame);
            self.place_food(placement);
            return Some(Cue::Eat);
        }
        None
    }

    /// Lets `delta` nanoseconds pass on the ticker. If that runs the ticker
    /// down, the ticker is wound up again and the session takes one tick;
    /// else nothing but the ticker changes.
    pub fn update(&mut self, delta: u64, frame: &Frame) -> (cue: Option<Cue>)
        requires
            old(self).wf(),
            frame.wf(),
            old(self).snake@.length < usize::MAX,
        ensures
            final(self).wf(),
            ({
                let run = ticker_state(old(self).ticker).advanced(delta as nat);
                if run.just_finished {
                    &&& ticker_state(final(self).ticker) == run.rewound()
                    &&& old(self).tick_leads_to(final(self), frame, cue)
                } else {
                    &&& ticker_state(final(self).ticker) == run
                    &&& cue is None
                    &&& final(self).snake == old(self).snake
                    &&& final(self).food == old(self).food
                    &&& final(self).status == old(self).status
                }
            }),
    {
        ticker_advance(&mut self.ticker, delta);
        if ticker_just_finished(&self.ticker) {
            ticker_reset(&mut self.ticker);
            self.tick(frame)
        } else {
            None
        }
    }
}

impl Drawable for Session {
    open spec fn can_draw(&self) -> bool {
        self.wf()
    }

    /// The snake lies over the food, and both over what was there before.
    open spec fn drawn_glyph(&self, before: &Frame, col: int, row: int) -> Glyph {
        let snake = self.snake@;
        if snake.head().0 == col && snake.head().1 == row {
            head_glyph(snake.heading)
        } else if covers(snake.body, snake.body.len() - 1, col, row) {
            Glyph::Body
        } else if self.food.position.0 == col && self.food.position.1 == row {
            self.food.blink.glyph()
        } else {
            before.glyph_at(col, row)
        }
    }

    fn draw(&self, frame: &mut Frame) {
        self.food.draw(frame);
        self.snake.draw(frame);
    }
}

/// A tick that runs the snake into a wall or into itself ends the session as
/// lost: no cue comes with the tick, the target length and the food stay, and
/// the closing cue is the one of a loss, not the one of a win. The body of a
/// snake that had not collided before stays where it was.
pub proof fn crash_loses_the_session(
    before: &Session,
    after: &Session,
    frame: &Frame,
    cue: Option<Cue>,
)
    requires
        before.tick_leads_to(after, frame, cue),
        before.crashes(),
    ensures
        after.status == Status::Lost,
        after.snake@.collided,
        !before.snake@.collided ==> after.snake@.body == before.snake@.body,
        after.snake@.length == before.snake@.length,
        after.food.position == before.food.position,
        cue is None,
        after.status.closing_cue_of() == Some(Cue::YouLose),
{
}

/// A tick that brings the head onto the food raises the target length by one
/// and fires the eating cue. Where the frame has no blank cell the session is
/// won and the food stays; else the session goes on as before with the food
/// on a blank cell of the frame.
pub proof fn meal_grows_the_snake(
    before: &Session,
    after: &Session,
    frame: &Frame,
    cue: Option<Cue>,
)
    requires
        before.tick_leads_to(after, frame, cue),
        before.eats(),
    ensures
        after.snake@.length == before.snake@.length + 1,
        after.snake@.head() == before.food.position,
        !after.snake@.collided,
        cue == Some(Cue::Eat),
        frame.is_full() ==> after.status == Status::Won && after.food.position
            == before.food.position && after.status.closing_cue_of() == Some(Cue::YouWin),
        !frame.is_full() ==> after.status == before.status && frame.glyph_at(
            after.food.position.0 as int,
            after.food.position.1 as int,
        ) == Glyph::Blank,
{
}

/// A tick that neither crashes nor eats moves the snake and lets the food
/// blink, and changes nothing else.
pub proof fn plain_tick_only_moves(
    before: &Session,
    after: &Session,
    frame: &Frame,
    cue: Option<Cue>,
)
    requires
        before.tick_leads_to(after, frame, cue),
        !before.crashes(),
        !before.eats(),
    ensures
        after.snake@ == before.snake@.tick(),
        after.status == before.status,
        after.food.position == before.food.position,
        after.food.blink == before.food.blink.toggled(),
        cue is None,
{
}

} // verus!
