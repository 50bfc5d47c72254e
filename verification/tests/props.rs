use snake::board::Board;
use snake::data::{Cell, Direction, Position};
use snake::logic::Logic;
use snake::snake::Snake;

#[test]
fn index_position_round_trip() {
    let board = Board::new(3, 3);
    for index in 0..9u32 {
        let position = board.to_position(index);
        assert_eq!(board.to_index(position), index);
    }
    let position = Position::new(2, 1);
    let back = board.to_position(board.to_index(position));
    assert_eq!((back.x(), back.y()), (2, 1));
}

#[test]
fn reset_restores_all_empty_indexes() {
    let mut board = Board::new(4, 3);
    board.set(0, Cell::Snake);
    board.set(5, Cell::Food);
    board.set(11, Cell::Snake);
    board.reset();
    let empty_indexes = board.empty_indexes();
    assert_eq!(empty_indexes.len(), 12);
    for (k, index) in empty_indexes.iter().enumerate() {
        assert_eq!(*index, k);
    }
}

#[test]
fn first_keypress_always_takes_effect() {
    for direction in [Direction::Up, Direction::Down, Direction::Left, Direction::Right] {
        let mut snake = Snake::new(Position::new(0, 0));
        assert_eq!(snake.direction(), Direction::Idle);
        snake.set_direction(direction);
        assert_eq!(snake.direction(), direction);
    }
}

#[test]
fn opposite_direction_is_refused() {
    let pairs = [
        (Direction::Up, Direction::Down),
        (Direction::Down, Direction::Up),
        (Direction::Left, Direction::Right),
        (Direction::Right, Direction::Left),
    ];
    for (current, opposite) in pairs {
        let mut snake = Snake::new(Position::new(0, 0));
        snake.set_direction(current);
        snake.set_direction(opposite);
        assert_eq!(snake.direction(), current);
    }
}

#[test]
fn non_opposite_direction_is_adopted() {
    let mut snake = Snake::new(Position::new(0, 0));
    snake.set_direction(Direction::Up);
    snake.set_direction(Direction::Left);
    assert_eq!(snake.direction(), Direction::Left);
    snake.set_direction(Direction::Down);
    assert_eq!(snake.direction(), Direction::Down);
}

#[test]
fn grow_lengthens_without_bound() {
    let mut snake = Snake::new(Position::new(0, 0));
    for i in 0..6u32 {
        snake.grow(Position::new(i + 1, 0));
        assert_eq!(snake.tail().len(), (i + 1) as usize);
    }
}

#[test]
fn move_caps_tail_at_three() {
    let mut snake = Snake::new(Position::new(0, 0));
    for i in 0..10u32 {
        snake.move_(Position::new(i + 1, 0));
        assert!(snake.tail().len() <= 3);
    }
    assert_eq!(snake.tail().len(), 3);
}

#[test]
fn score_is_zero_after_new_and_reset() {
    let mut logic = Logic::new(3, 3);
    assert_eq!(logic.score(), 0);
    logic.reset();
    assert_eq!(logic.score(), 0);
}

#[test]
fn score_counts_accumulated_length_past_four() {
    let mut logic = Logic::new(3, 3);
    for i in 0..5u32 {
        logic.snake.grow(Position::new(i, 0));
    }
    assert_eq!(logic.snake().len(), 6);
    assert_eq!(logic.score(), 2);
}

#[test]
fn passed_marks_retired_cell_empty() {
    let mut logic = Logic::new(2, 2);
    logic.snake.set_head(Position::new(1, 1));
    logic.snake.set_direction(Direction::Up);

    let retired = logic.passed().unwrap();
    assert_eq!((retired.x(), retired.y()), (1, 1));
    assert_eq!(logic.board.get(3), Some(Cell::Empty));
}

#[test]
fn passed_is_none_while_idle() {
    let mut logic = Logic::new(2, 2);
    assert_eq!(logic.passed(), None);
}

#[test]
fn spawn_lands_on_the_empty_cell() {
    let mut board = Board::new(2, 2);
    board.set(0, Cell::Snake);
    board.set(1, Cell::Snake);
    board.set(2, Cell::Food);
    let position = Logic::position(&mut board, Cell::Food);
    assert_eq!((position.x(), position.y()), (1, 1));
    assert_eq!(board.get(3), Some(Cell::Food));
}

#[test]
fn eating_food_grows_and_respawns() {
    let mut logic = Logic::new(2, 2);
    logic.board.reset();
    logic.snake.set_head(Position::new(0, 0));
    logic.board.set(0, Cell::Snake);
    logic.board.set(1, Cell::Food);
    logic.snake.set_direction(Direction::Down);

    let alive = logic.step();
    assert!(alive);
    let head = logic.snake.head();
    assert_eq!((head.x(), head.y()), (0, 1));
    assert_eq!(logic.snake.tail().len(), 1);
    assert_eq!(logic.board.get(1), Some(Cell::Snake));

    let food = logic.food();
    let food_index = logic.board.to_index(food) as usize;
    assert_eq!(logic.board.get(food_index), Some(Cell::Food));
    assert_ne!(food_index, 1);
}

#[test]
fn step_while_idle_is_a_tolerated_no_op_move() {
    let mut logic = Logic::new(2, 2);
    logic.board.reset();
    logic.snake.set_head(Position::new(1, 0));

    let alive = logic.step();
    assert!(alive);
    let head = logic.snake.head();
    assert_eq!((head.x(), head.y()), (1, 0));
}

#[test]
fn snake_reports_head_then_tail() {
    let mut logic = Logic::new(3, 3);
    logic.snake.set_head(Position::new(0, 0));
    logic.snake.grow(Position::new(1, 0));
    logic.snake.grow(Position::new(1, 1));
    let body = logic.snake();
    assert_eq!(body.len(), 3);
    assert_eq!((body[0].x(), body[0].y()), (1, 1));
    assert_eq!((body[1].x(), body[1].y()), (1, 0));
    assert_eq!((body[2].x(), body[2].y()), (0, 0));
}

#[test]
fn last_returns_oldest_tail_entry() {
    let mut snake = Snake::new(Position::new(0, 0));
    assert_eq!(snake.last(), None);
    snake.grow(Position::new(1, 0));
    snake.grow(Position::new(1, 1));
    let last = snake.last().unwrap();
    assert_eq!((last.x(), last.y()), (0, 0));
}

#[test]
fn get_out_of_bounds_is_none() {
    let board = Board::new(2, 2);
    assert_eq!(board.get(3), Some(Cell::Empty));
    assert_eq!(board.get(4), None);
}

#[test]
fn cell_colors_are_fixed() {
    assert_eq!(Cell::Food.color(), "rgb(255, 41, 164)");
    assert_eq!(Cell::Empty.color(), "rgb(209, 255, 231)");
    assert_eq!(Cell::Snake.color(), "rgb(109, 41, 255)");
}

#[test]
fn direction_weights_cancel_for_opposites() {
    assert_eq!(Direction::Up.weight() + Direction::Down.weight(), 0);
    assert_eq!(Direction::Left.weight() + Direction::Right.weight(), 0);
    assert_ne!(Direction::Up.weight() + Direction::Left.weight(), 0);
    assert_eq!(Direction::Idle.weight(), 0);
}

#[test]
fn step_off_upper_left_is_none() {
    let mut snake = Snake::new(Position::new(0, 0));
    snake.set_direction(Direction::Up);
    assert_eq!(snake.step(), None);
    let mut snake = Snake::new(Position::new(0, 0));
    snake.set_direction(Direction::Left);
    assert_eq!(snake.step(), None);
}
