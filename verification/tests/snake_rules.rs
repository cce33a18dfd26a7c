use snake::frame::{new_frame, Drawable, Frame, Glyph};
use snake::snake::Snake;
use snake::{Direction, Tickable, NUM_COLS, NUM_ROWS, TICK_INTERVAL};

fn count_glyphs(frame: &Frame, glyph: Glyph) -> usize {
    let mut n = 0;
    for col in 0..NUM_COLS {
        for row in 0..NUM_ROWS {
            if frame.get(col, row) == glyph {
                n += 1;
            }
        }
    }
    n
}

#[test]
fn board_constants() {
    assert_eq!(NUM_COLS, 30);
    assert_eq!(NUM_ROWS, 20);
    assert_eq!(TICK_INTERVAL, 300);
}

#[test]
fn new_snake_starts_at_the_centre() {
    let snake = Snake::new();
    assert_eq!(snake.get_head_position(), (15, 10));
    assert_eq!(snake.length(), 4);
    assert_eq!(snake.heading(), Direction::Up);
    assert!(!*snake.has_collided());
    let mut frame = new_frame();
    snake.draw(&mut frame);
    assert_eq!(frame.get(15, 10), Glyph::HeadUp);
    assert_eq!(count_glyphs(&frame, Glyph::Blank), 599);
}

#[test]
fn three_ticks_move_the_head_three_cells_up() {
    let mut snake = Snake::new();
    snake.tick();
    snake.tick();
    snake.tick();
    assert_eq!(snake.get_head_position(), (15, 7));
    assert!(!*snake.has_collided());
    assert_eq!(snake.length(), 4);
    let mut frame = new_frame();
    snake.draw(&mut frame);
    assert_eq!(frame.get(15, 7), Glyph::HeadUp);
    assert_eq!(frame.get(15, 8), Glyph::Body);
    assert_eq!(frame.get(15, 9), Glyph::Body);
    assert_eq!(frame.get(15, 10), Glyph::Body);
    assert_eq!(count_glyphs(&frame, Glyph::Body), 3);
    assert_eq!(count_glyphs(&frame, Glyph::Blank), 596);
}

#[test]
fn the_tail_follows_once_the_target_length_is_reached() {
    let mut snake = Snake::new();
    for _ in 0..5 {
        snake.tick();
    }
    assert_eq!(snake.get_head_position(), (15, 5));
    let mut frame = new_frame();
    snake.draw(&mut frame);
    assert_eq!(frame.get(15, 5), Glyph::HeadUp);
    assert_eq!(frame.get(15, 8), Glyph::Body);
    assert_eq!(frame.get(15, 9), Glyph::Blank);
    assert_eq!(frame.get(15, 10), Glyph::Blank);
    assert_eq!(count_glyphs(&frame, Glyph::Body), 3);
}

#[test]
fn growing_keeps_the_tail_for_one_tick() {
    let mut snake = Snake::new();
    for _ in 0..3 {
        snake.tick();
    }
    snake.grow();
    assert_eq!(snake.length(), 5);
    snake.tick();
    let mut frame = new_frame();
    snake.draw(&mut frame);
    assert_eq!(frame.get(15, 6), Glyph::HeadUp);
    assert_eq!(frame.get(15, 10), Glyph::Body);
    assert_eq!(count_glyphs(&frame, Glyph::Body), 4);
    snake.tick();
    let mut later = new_frame();
    snake.draw(&mut later);
    assert_eq!(later.get(15, 10), Glyph::Blank);
    assert_eq!(count_glyphs(&later, Glyph::Body), 4);
}

#[test]
fn a_reversal_is_ignored() {
    let mut snake = Snake::new();
    snake.set_direction(Direction::Down);
    snake.tick();
    assert_eq!(snake.heading(), Direction::Up);
    assert_eq!(snake.get_head_position(), (15, 9));
}

#[test]
fn a_reversal_does_not_undo_an_earlier_request() {
    let mut snake = Snake::new();
    snake.set_direction(Direction::Right);
    snake.set_direction(Direction::Down);
    snake.tick();
    assert_eq!(snake.heading(), Direction::Right);
    assert_eq!(snake.get_head_position(), (16, 10));
}

#[test]
fn every_turn_but_the_reversal_is_taken() {
    let all = [Direction::Up, Direction::Down, Direction::Left, Direction::Right];
    let opposite = [Direction::Down, Direction::Up, Direction::Right, Direction::Left];
    for h in 0..4 {
        for d in 0..4 {
            let mut snake = Snake::new();
            if all[h] == Direction::Down {
                snake.set_direction(Direction::Left);
                snake.tick();
            }
            snake.set_direction(all[h]);
            snake.tick();
            assert!(snake.heading() == all[h]);
            snake.set_direction(all[d]);
            snake.tick();
            if all[d] == opposite[h] {
                assert!(snake.heading() == all[h]);
            } else {
                assert!(snake.heading() == all[d]);
            }
            assert!(!*snake.has_collided());
        }
    }
}

#[test]
fn the_last_request_before_a_tick_counts() {
    let mut snake = Snake::new();
    snake.set_direction(Direction::Left);
    snake.set_direction(Direction::Right);
    snake.tick();
    assert_eq!(snake.heading(), Direction::Right);
    assert_eq!(snake.get_head_position(), (16, 10));
}

#[test]
fn move_head_shifts_by_one_cell() {
    let mut snake = Snake::new();
    snake.move_head(Direction::Left);
    assert_eq!(snake.get_head_position(), (14, 10));
    snake.move_head(Direction::Down);
    assert_eq!(snake.get_head_position(), (14, 11));
    snake.move_head(Direction::Right);
    assert_eq!(snake.get_head_position(), (15, 11));
    assert!(!*snake.has_collided());
    snake.move_head(Direction::Up);
    assert!(*snake.has_collided());
    assert_eq!(snake.get_head_position(), (15, 11));
    assert_eq!(snake.heading(), Direction::Up);
}

#[test]
fn a_head_off_the_board_collides_and_moves_nothing() {
    let outside: [(isize, isize); 6] = [(-1, 5), (30, 5), (5, -1), (5, 20), (-1, -1), (30, 20)];
    for target in outside {
        let mut snake = Snake::new();
        snake.tick();
        let mut before = new_frame();
        snake.draw(&mut before);
        snake.set_head_position(target);
        assert!(*snake.has_collided());
        assert_eq!(snake.get_head_position(), (15, 9));
        let mut after = new_frame();
        snake.draw(&mut after);
        assert!(before == after);
    }
}

#[test]
fn the_corners_of_the_board_can_be_entered() {
    let corners: [(isize, isize); 4] = [(0, 0), (29, 0), (0, 19), (29, 19)];
    for target in corners {
        let mut snake = Snake::new();
        snake.set_head_position(target);
        assert!(!*snake.has_collided());
        assert_eq!(snake.get_head_position(), (target.0 as usize, target.1 as usize));
    }
}

#[test]
fn running_into_the_top_wall_collides() {
    let mut snake = Snake::new();
    for _ in 0..10 {
        snake.tick();
        assert!(!*snake.has_collided());
    }
    assert_eq!(snake.get_head_position(), (15, 0));
    snake.tick();
    assert!(*snake.has_collided());
    assert_eq!(snake.get_head_position(), (15, 0));
}

#[test]
fn a_collision_is_never_taken_back() {
    let mut snake = Snake::new();
    snake.set_head_position((-1, 0));
    assert!(*snake.has_collided());
    snake.set_direction(Direction::Left);
    snake.tick();
    assert!(*snake.has_collided());
    snake.move_head(Direction::Down);
    assert!(*snake.has_collided());
}

#[test]
fn a_square_turn_runs_into_the_tail() {
    let mut snake = Snake::new();
    snake.tick();
    snake.set_direction(Direction::Left);
    snake.tick();
    snake.set_direction(Direction::Down);
    snake.tick();
    assert_eq!(snake.get_head_position(), (14, 10));
    assert!(!*snake.has_collided());
    let mut before = new_frame();
    snake.draw(&mut before);
    snake.set_direction(Direction::Right);
    snake.tick();
    assert!(*snake.has_collided());
    assert_eq!(snake.get_head_position(), (14, 10));
    assert_eq!(snake.heading(), Direction::Right);
    let mut after = new_frame();
    snake.draw(&mut after);
    assert_eq!(before.get(14, 10), Glyph::HeadDown);
    assert_eq!(after.get(14, 10), Glyph::HeadRight);
    assert_eq!(after.get(15, 10), Glyph::Body);
    assert_eq!(count_glyphs(&after, Glyph::Body), 3);
}

#[test]
fn the_cell_of_the_present_head_is_not_checked() {
    let mut snake = Snake::new();
    snake.tick();
    snake.set_head_position((15, 9));
    assert!(!*snake.has_collided());
    assert_eq!(snake.get_head_position(), (15, 9));
    snake.set_head_position((15, 10));
    assert!(*snake.has_collided());
}

#[test]
fn the_head_glyph_follows_the_heading() {
    let cases = [
        (Direction::Left, Glyph::HeadLeft, (14usize, 10usize)),
        (Direction::Right, Glyph::HeadRight, (16, 10)),
        (Direction::Up, Glyph::HeadUp, (15, 9)),
    ];
    for (direction, glyph, cell) in cases {
        let mut snake = Snake::new();
        snake.set_direction(direction);
        snake.tick();
        let mut frame = new_frame();
        snake.draw(&mut frame);
        assert_eq!(frame.get(cell.0, cell.1), glyph);
        assert_eq!(frame.get(15, 10), Glyph::Body);
    }
    let mut snake = Snake::new();
    snake.set_direction(Direction::Left);
    snake.tick();
    snake.set_direction(Direction::Down);
    snake.tick();
    let mut frame = new_frame();
    snake.draw(&mut frame);
    assert_eq!(frame.get(14, 11), Glyph::HeadDown);
}

#[test]
fn drawing_leaves_other_cells_alone() {
    let mut frame = new_frame();
    frame.set(3, 4, Glyph::FoodRing);
    frame.set(15, 10, Glyph::FoodDot);
    let snake = Snake::new();
    snake.draw(&mut frame);
    assert_eq!(frame.get(3, 4), Glyph::FoodRing);
    assert_eq!(frame.get(15, 10), Glyph::HeadUp);
}
