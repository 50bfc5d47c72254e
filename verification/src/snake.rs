//! The snake: a head position, a trailing body of recently passed-through
//! positions, and a direction state machine that refuses instant reversals.

use vstd::prelude::*;

use crate::data::{spec_is_opposite, Direction, Position};

verus! {

/// The direction that results from requesting a change: the current one when
/// the request is its exact opposite, the requested one otherwise.
pub open spec fn spec_next_direction(current: Direction, requested: Direction) -> Direction {
    if spec_is_opposite(current, requested) {
        current
    } else {
        requested
    }
}

/// The trailing body after an uncapped growth step: the old head slides onto
/// the front of the tail.
pub open spec fn spec_grown_tail(tail: Seq<Position>, head: Position) -> Seq<Position> {
    tail.insert(0, head)
}

/// The trailing body after a capped movement step: the old head slides onto
/// the front of the tail, and the oldest entry is dropped once the tail
/// exceeds three segments.
pub open spec fn spec_moved_tail(tail: Seq<Position>, head: Position) -> Seq<Position> {
    let grown = spec_grown_tail(tail, head);
    if grown.len() > 3 {
        grown.drop_last()
    } else {
        grown
    }
}

/// The candidate next head: one cell along the direction, the head itself
/// when idle, or nothing when the move would take a coordinate negative.
pub open spec fn spec_step(snake: Snake) -> Option<Position>
    recommends
        snake.head.x < u32::MAX,
        snake.head.y < u32::MAX,
{
    match snake.direction {
        Direction::Up => if snake.head.y == 0 {
            None
        } else {
            Some(Position { x: snake.head.x, y: (snake.head.y - 1) as u32 })
        },
        Direction::Down => Some(Position { x: snake.head.x, y: (snake.head.y + 1) as u32 }),
        Direction::Left => if snake.head.x == 0 {
            None
        } else {
            Some(Position { x: (snake.head.x - 1) as u32, y: snake.head.y })
        },
        Direction::Right => Some(Position { x: (snake.head.x + 1) as u32, y: snake.head.y }),
        Direction::Idle => Some(snake.head),
    }
}

/// A direction change never adopts the exact opposite of the current
/// direction and adopts any other request; from the idle state every real
/// direction is adopted, so the first requested movement always takes
/// effect.
pub proof fn lemma_direction_change(current: Direction, requested: Direction)
    ensures
        spec_is_opposite(current, requested) <==> ((current == Direction::Up && requested
            == Direction::Down) || (current == Direction::Down && requested == Direction::Up) || (
        current == Direction::Left && requested == Direction::Right) || (current
            == Direction::Right && requested == Direction::Left) || (current == Direction::Idle
            && requested == Direction::Idle)),
        spec_is_opposite(current, requested) ==> spec_next_direction(current, requested) == current,
        !spec_is_opposite(current, requested) ==> spec_next_direction(current, requested)
            == requested,
        current == Direction::Idle && requested != Direction::Idle ==> spec_next_direction(
            current,
            requested,
        ) == requested,
{
}

/// Growing lengthens the trailing body by exactly one segment, without
/// bound.
pub proof fn lemma_grow_lengthens(tail: Seq<Position>, head: Position)
    ensures
        spec_grown_tail(tail, head).len() == tail.len() + 1,
{
}

/// A capped movement step lengthens the trailing body only up to three
/// segments: a tail at or under the cap stays at or under it, and a longer
/// tail keeps its length.
pub proof fn lemma_move_caps_tail(tail: Seq<Position>, head: Position)
    ensures
        spec_moved_tail(tail, head).len() == if tail.len() >= 3 {
            tail.len()
        } else {
            tail.len() + 1
        },
        tail.len() <= 3 ==> spec_moved_tail(tail, head).len() <= 3,
{
}

/// The snake: head, trailing body (most recently passed-through first), and
/// current direction.
pub struct Snake {
    pub direction: Direction,
    pub head: Position,
    pub tail: Vec<Position>,
}

impl Snake {
    /// Builds an idle snake at the given head with an empty trailing body.
    pub fn new(head: Position) -> (r: Snake)
        ensures
            r.head == head,
            r.tail@.len() == 0,
            r.direction == Direction::Idle,
    {
        Snake { head, tail: Vec::new(), direction: Direction::Idle }
    }

    /// Clears the trailing body. Head and direction are left untouched:
    /// callers reposition the head explicitly afterwards.
    pub fn reset(&mut self)
        ensures
            final(self).tail@.len() == 0,
            final(self).head == old(self).head,
            final(self).direction == old(self).direction,
    {
        self.tail = Vec::new();
    }

    /// Returns the head position.
    pub fn head(&self) -> (r: Position)
        ensures
            r == self.head,
    {
        self.head
    }

    /// True exactly when `position` is the current head.
    pub fn current(&self, position: Position) -> (r: bool)
        ensures
            r <==> position == self.head,
    {
        self.head.x() == position.x() && self.head.y() == position.y()
    }

    /// Returns the trailing body, most recently passed-through first.
    pub fn tail(&self) -> (r: &Vec<Position>)
        ensures
            r@ == self.tail@,
    {
        &self.tail
    }

    /// Returns the current direction.
    pub fn direction(&self) -> (r: Direction)
        ensures
            r == self.direction,
    {
        self.direction
    }

    /// Moves the head to `position` without recording the old head.
    pub fn set_head(&mut self, position: Position)
        ensures
            final(self).head == position,
            final(self).tail@ == old(self).tail@,
            final(self).direction == old(self).direction,
    {
        self.head = position;
    }

    /// Requests a direction change: the exact opposite of the current
    /// direction is refused (the current direction is kept), any other
    /// request is adopted.
    pub fn set_direction(&mut self, new_direction: Direction)
        ensures
            final(self).direction == spec_next_direction(old(self).direction, new_direction),
            final(self).head == old(self).head,
            final(self).tail@ == old(self).tail@,
    {
        self.direction = if self.direction.weight() + new_direction.weight() == 0 {
            self.direction
        } else {
            new_direction
        };
    }

    /// Slides the old head onto the front of the trailing body and moves the
    /// head to `position`. Always lengthens the recorded tail by one.
    pub fn grow(&mut self, position: Position)
        ensures
            final(self).head == position,
            final(self).tail@ == spec_grown_tail(old(self).tail@, old(self).head),
            final(self).tail@.len() == old(self).tail@.len() + 1,
            final(self).direction == old(self).direction,
    {
        let head = self.head;
        self.tail.insert(0, head);
        self.set_head(position);
    }

    /// Moves like `grow`, then drops the oldest tail entry once the tail
    /// exceeds three segments, so the visible body stabilizes at head plus
    /// three.
    pub fn move_(&mut self, position: Position)
        ensures
            final(self).head == position,
            final(self).tail@ == spec_moved_tail(old(self).tail@, old(self).head),
            final(self).tail@.len() == if old(self).tail@.len() >= 3 {
                old(self).tail@.len()
            } else {
                old(self).tail@.len() + 1
            },
            final(self).direction == old(self).direction,
    {
        self.grow(position);
        if self.tail.len() > 3 {
            self.tail.pop();
        }
    }

    /// Returns the oldest entry of the trailing body, or nothing when the
    /// tail is empty.
    pub fn last(&self) -> (r: Option<Position>)
        ensures
            r == if self.tail@.len() == 0 {
                Option::<Position>::None
            } else {
                Some(self.tail@.last())
            },
    {
        if self.tail.len() == 0 {
            None
        } else {
            Some(self.tail[self.tail.len() - 1])
        }
    }

    /// Computes the candidate next head position: one cell along the current
    /// direction, the head itself when idle, or nothing when the move would
    /// take a coordinate off the upper-left boundary.
    pub fn step(&self) -> (r: Option<Position>)
        requires
            self.head.x < u32::MAX,
            self.head.y < u32::MAX,
        ensures
            r == spec_step(*self),
    {
        let head_x = self.head().x();
        let head_y = self.head().y();

        match self.direction {
            Direction::Up => {
                if head_y == 0 {
                    None
                } else {
                    Some(Position::new(head_x, head_y - 1))
                }
            },
            Direction::Down => Some(Position::new(head_x, head_y + 1)),
            Direction::Left => {
                if head_x == 0 {
                    None
                } else {
                    Some(Position::new(head_x - 1, head_y))
                }
            },
            Direction::Right => Some(Position::new(head_x + 1, head_y)),
            Direction::Idle => Some(Position::new(head_x, head_y)),
        }
    }
}

} // verus!
