use snake::data::{Cell, Direction, Position};
use snake::logic::Logic;

#[test]
fn test_new() {
    let logic = Logic::new(2, 2);
    let empty_indexes = logic.board.empty_indexes();

    assert_eq!(empty_indexes.len(), 2);
}

#[test]
fn logic_test_reset() {
    let mut logic = Logic::new(2, 2);
    logic.board.set(0, Cell::Snake);
    logic.board.set(1, Cell::Snake);
    logic.board.set(2, Cell::Snake);
    logic.board.set(3, Cell::Food);
    logic.reset();
    let empty_indexes = logic.board.empty_indexes();

    assert_eq!(empty_indexes.len(), 2);
}

#[test]
fn test_position() {
    let mut logic = Logic::new(2, 2);
    let position = Logic::position(&mut logic.board, Cell::Snake);
    assert!(position.x() < logic.board.width());
    assert!(position.y() < logic.board.height());
}

#[test]
fn test_alive() {
    let mut logic = Logic::new(2, 2);
    logic.board.reset();
    logic.snake.set_head(Position::new(0, 0));
    logic.snake.set_direction(Direction::Down);
    let alive = logic.step();

    let position = logic.snake.head();
    assert!(alive);
    assert_eq!((position.x(), position.y()), (0, 1));
}

#[test]
fn test_no_alive() {
    let mut logic = Logic::new(2, 2);
    logic.board.reset();
    logic.snake.set_head(Position::new(2, 2));
    logic.snake.set_direction(Direction::Up);
    let alive = logic.step();

    assert!(!alive);
}

#[test]
fn test_passed() {
    let mut logic = Logic::new(2, 2);
    logic.snake.set_head(Position::new(1, 1));
    logic.snake.set_direction(Direction::Up);

    let new = logic.passed().unwrap();
    assert_eq!(new.x(), 1);
    assert_eq!(new.y(), 1);
}
