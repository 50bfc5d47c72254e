//! Value types shared by the whole engine: grid positions, movement
//! directions with their signed axis weights, and board cell states.

use vstd::prelude::*;

verus! {

/// State of one board cell. Each variant maps to a fixed display color that
/// renderers depend on verbatim.
#[derive(Debug, Clone, Copy, PartialEq, Eq, Structural)]
pub enum Cell {
    Food,
    Empty,
    Snake,
}

/// A movement direction, or `Idle` while the game has no movement yet. Up/Down and
/// Left/Right are opposite pairs: the sum of the axis weights of a direction
/// and its opposite is zero.
#[derive(Debug, Clone, Copy, PartialEq, Eq, Structural)]
pub enum Direction {
    Up,
    Down,
    Left,
    Right,
    Idle,
}

/// A zero-based grid coordinate. A plain value type: equality is
/// component-wise.
#[derive(Debug, Clone, Copy, PartialEq, Eq, Structural)]
pub struct Position {
    pub x: u32,
    pub y: u32,
}

impl Cell {
    /// The display color of this cell state.
    pub open spec fn spec_color(self) -> Seq<char> {
        match self {
            Cell::Food => "rgb(255, 41, 164)"@,
            Cell::Empty => "rgb(209, 255, 231)"@,
            Cell::Snake => "rgb(109, 41, 255)"@,
        }
    }

    /// Returns the display color of this cell state.
    pub fn color(&self) -> (r: &'static str)
        ensures
            r@ == self.spec_color(),
    {
        match *self {
            Cell::Food => "rgb(255, 41, 164)",
            Cell::Empty => "rgb(209, 255, 231)",
            Cell::Snake => "rgb(109, 41, 255)",
        }
    }
}

impl Direction {
    /// The signed axis weight of a direction: opposite directions have
    /// weights that cancel, and the idle direction weighs nothing.
    pub open spec fn spec_weight(self) -> int {
        match self {
            Direction::Up => 1,
            Direction::Down => -1,
            Direction::Left => 2,
            Direction::Right => -2,
            Direction::Idle => 0,
        }
    }

    /// Returns the signed axis weight of this direction.
    pub fn weight(&self) -> (w: i8)
        ensures
            w as int == self.spec_weight(),
    {
        match *self {
            Direction::Up => 1,
            Direction::Down => -1,
            Direction::Left => 2,
            Direction::Right => -2,
            Direction::Idle => 0,
        }
    }
}

/// True exactly when `a` and `b` are an opposite pair: their axis weights sum
/// to zero.
pub open spec fn spec_is_opposite(a: Direction, b: Direction) -> bool {
    a.spec_weight() + b.spec_weight() == 0
}

impl Position {
    /// Builds the position `(x, y)`.
    pub fn new(x: u32, y: u32) -> (r: Position)
        ensures
            r.x == x,
            r.y == y,
    {
        Position { x, y }
    }

    /// Returns the horizontal coordinate.
    pub fn x(&self) -> (r: u32)
        ensures
            r == self.x,
    {
        self.x
    }

    /// Returns the vertical coordinate.
    pub fn y(&self) -> (r: u32)
        ensures
            r == self.y,
    {
        self.y
    }
}

} // verus!
