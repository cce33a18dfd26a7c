use snake::frame::{new_frame, Drawable, Frame, Glyph};
use snake::game::{Cue, Input, Session, Status};
use snake::{Direction, NUM_COLS, NUM_ROWS};

fn full_frame() -> Frame {
    let mut frame = new_frame();
    for col in 0..NUM_COLS {
        for row in 0..NUM_ROWS {
            frame.set(col, row, Glyph::Body);
        }
    }
    frame
}

#[test]
fn a_new_session_runs() {
    let session = Session::new();
    assert_eq!(session.status, Status::Running);
    assert_eq!(session.snake.get_head_position(), (15, 10));
    assert_eq!(session.snake.length(), 4);
    assert_eq!(session.food.position, (15, 9));
}

#[test]
fn eating_grows_the_snake_and_moves_the_food() {
    let mut session = Session::new();
    let mut frame = full_frame();
    frame.set(3, 17, Glyph::Blank);
    let cue = session.tick(&frame);
    assert_eq!(cue, Some(Cue::Eat));
    assert_eq!(session.snake.length(), 5);
    assert_eq!(session.snake.get_head_position(), (15, 9));
    assert_eq!(session.food.position, (3, 17));
    assert_eq!(session.food.current_glyph(), Glyph::FoodRing);
    assert_eq!(session.status, Status::Running);
    let next = session.tick(&frame);
    assert_eq!(next, None);
    assert_eq!(session.snake.length(), 5);
    assert_eq!(session.food.position, (3, 17));
    assert_eq!(session.status, Status::Running);
}

#[test]
fn eating_on_a_blank_frame_finds_some_cell() {
    let mut session = Session::new();
    let frame = new_frame();
    let cue = session.tick(&frame);
    assert_eq!(cue, Some(Cue::Eat));
    assert_eq!(session.status, Status::Running);
    assert!(session.food.position.0 < NUM_COLS && session.food.position.1 < NUM_ROWS);
}

#[test]
fn eating_with_no_cell_left_wins() {
    let mut session = Session::new();
    let frame = full_frame();
    let cue = session.tick(&frame);
    assert_eq!(cue, Some(Cue::Eat));
    assert_eq!(session.snake.length(), 5);
    assert_eq!(session.status, Status::Won);
    assert_eq!(session.food.position, (15, 9));
    assert_eq!(session.status.closing_cue(), Some(Cue::YouWin));
    assert_eq!(session.status.message(), Some("Congratulations! You win!"));
}

#[test]
fn running_into_a_wall_loses() {
    let mut session = Session::new();
    let frame = new_frame();
    session.food.position = (0, 19);
    for _ in 0..10 {
        assert_eq!(session.tick(&frame), None);
        assert_eq!(session.status, Status::Running);
    }
    assert_eq!(session.snake.get_head_position(), (15, 0));
    let cue = session.tick(&frame);
    assert_eq!(cue, None);
    assert_eq!(session.status, Status::Lost);
    assert!(*session.snake.has_collided());
    assert_eq!(session.snake.length(), 4);
    assert_eq!(session.food.position, (0, 19));
    assert_eq!(session.status.closing_cue(), Some(Cue::YouLose));
    assert_eq!(session.status.message(), Some("You lose! Good luck next time!"));
}

#[test]
fn a_crash_on_the_food_cell_row_does_not_eat() {
    let mut session = Session::new();
    let frame = new_frame();
    session.food.position = (15, 0);
    for _ in 0..9 {
        assert_eq!(session.tick(&frame), None);
    }
    assert_eq!(session.tick(&frame), Some(Cue::Eat));
    assert_eq!(session.snake.length(), 5);
    session.food.position = (15, 0);
    assert_eq!(session.tick(&frame), None);
    assert_eq!(session.status, Status::Lost);
    assert_eq!(session.snake.length(), 5);
}

#[test]
fn quitting_ends_the_session_without_cue() {
    let mut session = Session::new();
    session.handle_input(Input::Quit);
    assert_eq!(session.status, Status::Quit);
    assert_eq!(session.status.closing_cue(), None);
    assert_eq!(session.status.message(), None);
    assert_eq!(session.snake.get_head_position(), (15, 10));
}

#[test]
fn a_running_session_has_no_closing_cue() {
    assert_eq!(Status::Running.closing_cue(), None);
    assert_eq!(Status::Running.message(), None);
}

#[test]
fn inputs_turn_the_snake() {
    let mut session = Session::new();
    let frame = new_frame();
    session.food.position = (0, 0);
    session.handle_input(Input::Other);
    session.handle_input(Input::Turn(Direction::Down));
    session.tick(&frame);
    assert_eq!(session.snake.heading(), Direction::Up);
    session.handle_input(Input::Turn(Direction::Left));
    session.tick(&frame);
    assert_eq!(session.snake.heading(), Direction::Left);
    assert_eq!(session.snake.get_head_position(), (14, 9));
    assert_eq!(session.status, Status::Running);
}

#[test]
fn cue_names() {
    assert_eq!(Cue::NewGame.name(), "new_game");
    assert_eq!(Cue::Eat.name(), "eat");
    assert_eq!(Cue::YouWin.name(), "you_win");
    assert_eq!(Cue::YouLose.name(), "you_lose");
}

#[test]
fn the_snake_is_drawn_over_the_food() {
    let mut session = Session::new();
    let mut first = new_frame();
    session.draw(&mut first);
    assert_eq!(first.get(15, 9), Glyph::FoodDot);
    assert_eq!(first.get(15, 10), Glyph::HeadUp);
    let blank = new_frame();
    session.tick(&blank);
    session.food.position = (15, 9);
    let mut second = new_frame();
    session.draw(&mut second);
    assert_eq!(second.get(15, 9), Glyph::HeadUp);
    assert_eq!(second.get(15, 10), Glyph::Body);
    session.food.position = (15, 10);
    let mut third = new_frame();
    session.draw(&mut third);
    assert_eq!(third.get(15, 10), Glyph::Body);
}

#[test]
fn the_ticker_fires_after_the_interval() {
    let mut session = Session::new();
    let frame = new_frame();
    session.food.position = (0, 0);
    assert_eq!(session.update(100_000_000, &frame), None);
    assert_eq!(session.snake.get_head_position(), (15, 10));
    assert_eq!(session.update(199_000_000, &frame), None);
    assert_eq!(session.snake.get_head_position(), (15, 10));
    assert_eq!(session.food.current_glyph(), Glyph::FoodDot);
    session.update(1_000_000, &frame);
    assert_eq!(session.snake.get_head_position(), (15, 9));
    assert_eq!(session.food.current_glyph(), Glyph::FoodRing);
    session.update(299_000_000, &frame);
    assert_eq!(session.snake.get_head_position(), (15, 9));
    session.update(5_000_000, &frame);
    assert_eq!(session.snake.get_head_position(), (15, 8));
}

#[test]
fn a_long_pause_gives_one_tick() {
    let mut session = Session::new();
    let frame = new_frame();
    session.food.position = (0, 0);
    session.update(5000_000_000, &frame);
    assert_eq!(session.snake.get_head_position(), (15, 9));
    session.update(1_000_000, &frame);
    assert_eq!(session.snake.get_head_position(), (15, 9));
}

#[test]
fn the_ticker_eats_through_update() {
    let mut session = Session::new();
    let frame = new_frame();
    assert_eq!(session.update(300_000_000, &frame), Some(Cue::Eat));
    assert_eq!(session.snake.length(), 5);
}
