use snake::data::{Direction, Position};
use snake::snake::Snake;

#[test]
fn snake_test_reset() {
    let mut snake = Snake::new(Position::new(0, 0));
    snake.grow(Position::new(1, 0));
    snake.reset();
    assert_eq!(snake.tail().len(), 0);
}

#[test]
fn test_current() {
    let snake = Snake::new(Position::new(1, 1));
    assert!(snake.current(Position::new(1, 1)));
}

#[test]
fn test_grow() {
    let mut snake = Snake::new(Position::new(0, 0));
    snake.grow(Position::new(1, 0));
    snake.grow(Position::new(1, 1));
    assert_eq!(snake.tail.len(), 2);
}

#[test]
fn test_move() {
    let mut snake = Snake::new(Position::new(0, 0));
    snake.grow(Position::new(1, 0));
    snake.move_(Position::new(1, 1));
    snake.move_(Position::new(2, 1));
    snake.grow(Position::new(2, 2));
    assert_eq!(snake.head.x(), 2);
    assert_eq!(snake.head.y(), 2);
}

#[test]
fn test_set_direction() {
    let mut snake = Snake::new(Position::new(0, 0));
    snake.set_direction(Direction::Down);
    snake.set_direction(Direction::Up);
    assert_eq!(snake.direction(), Direction::Down);
}

#[test]
fn test_step() {
    let mut snake = Snake::new(Position::new(1, 1));
    snake.set_direction(Direction::Up);

    let new = snake.step().unwrap();
    assert_eq!(new.x(), 1);
    assert_eq!(new.y(), 0);
}
