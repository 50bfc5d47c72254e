//! The engine: owns the board, the snake and the food position, advances the
//! simulation one tick at a time, spawns food and snake at random empty
//! cells, derives the score, and tracks the just-vacated cell for
//! incremental redraw.

use vstd::prelude::*;

use rand::seq::IndexedRandom;

use crate::board::{
    lemma_empty_indexes_complete, lemma_empty_indexes_members, spec_empty_indexes, spec_to_index,
    spec_to_position, Board,
};
use crate::data::{Cell, Direction, Position};
use crate::snake::{spec_grown_tail, spec_moved_tail, spec_step, Snake};
use crate::INITIAL_TAIL_LEN;

verus! {

/// Relies on rand's `IndexedRandom::choose`: returns a uniformly sampled
/// element of the slice, or nothing exactly when the slice is empty.
#[verifier::external_body]
fn choose_index(indexes: &Vec<usize>) -> (r: Option<usize>)
    ensures
        r is None <==> indexes@.len() == 0,
        r matches Some(index) ==> indexes@.contains(index),
{
    indexes.choose(&mut rand::rng()).copied()
}

/// The engine state: the board, the snake and the current food position.
pub struct Logic {
    pub board: Board,
    pub snake: Snake,
    pub food: Position,
}

impl Logic {
    /// Board dimensions the engine can run on: at least two cells (so that
    /// both snake and food can spawn), and small enough that every in-range
    /// index computation fits the index type.
    pub open spec fn dims_ok(width: u32, height: u32) -> bool {
        &&& 1 <= width
        &&& 2 <= width * height
        &&& width * height <= u32::MAX
        &&& (width - 1) * width + (height - 1) <= u32::MAX
    }

    /// The engine's structural invariant: a well-formed board of workable
    /// dimensions.
    pub open spec fn wf(&self) -> bool {
        &&& self.board.wf()
        &&& Logic::dims_ok(self.board.width, self.board.height)
    }

    /// Whether the snake may advance onto `position`: it lies on the board,
    /// its index lies inside the cell vector, and its cell is not a
    /// board-tracked snake cell.
    pub open spec fn spec_proceed(&self, position: Position) -> bool {
        &&& position.x < self.board.width
        &&& position.y < self.board.height
        &&& spec_to_index(position, self.board.width) < self.board.cells@.len()
        &&& self.board.cells@[spec_to_index(position, self.board.width)] != Cell::Snake
    }

    /// Whether the next tick leaves the snake alive: there is a candidate
    /// head, and it either may be advanced onto or is the current head (a
    /// no-op move while idle).
    pub open spec fn spec_step_alive(&self) -> bool {
        match spec_step(self.snake) {
            Some(p) => self.spec_proceed(p) || p == self.snake.head,
            None => false,
        }
    }

    /// Whether the next tick lands the snake on a food cell.
    pub open spec fn spec_step_eats(&self) -> bool {
        match spec_step(self.snake) {
            Some(p) => (self.spec_proceed(p) || p == self.snake.head) && spec_to_index(
                p,
                self.board.width,
            ) < self.board.cells@.len() && self.board.cells@[spec_to_index(p, self.board.width)]
                == Cell::Food,
            None => false,
        }
    }

    /// Whether the board holds at least one empty cell.
    pub open spec fn spec_has_empty_cell(board: Board) -> bool {
        exists|i: int| 0 <= i < board.cells@.len() && #[trigger] board.cells@[i] == Cell::Empty
    }

    /// What a surviving tick does. On food the snake grows without cap and a
    /// new food cell is spawned at a previously empty index; otherwise the
    /// snake performs a capped move. Either way the candidate head's cell is
    /// marked as snake.
    pub open spec fn spec_step_effect(pre: Logic, post: Logic) -> bool {
        let p = spec_step(pre.snake)->Some_0;
        let idx = spec_to_index(p, pre.board.width);
        &&& post.board.width == pre.board.width
        &&& post.board.height == pre.board.height
        &&& post.snake.head == p
        &&& post.snake.direction == pre.snake.direction
        &&& if pre.spec_step_eats() {
            &&& post.snake.tail@ == spec_grown_tail(pre.snake.tail@, pre.snake.head)
            &&& exists|i: int|
                0 <= i < pre.board.cells@.len() && #[trigger] pre.board.cells@[i] == Cell::Empty && post.food
                    == spec_to_position(i as u32, pre.board.width) && post.board.cells@
                    == pre.board.cells@.update(i, Cell::Food).update(idx, Cell::Snake)
        } else {
            &&& post.snake.tail@ == spec_moved_tail(pre.snake.tail@, pre.snake.head)
            &&& post.food == pre.food
            &&& post.board.cells@ == pre.board.cells@.update(idx, Cell::Snake)
        }
    }

    /// The board cell about to fall off the rendered trailing body: the
    /// oldest tail entry, or the head itself while the tail is still empty.
    pub open spec fn spec_retire_position(&self) -> Position {
        if self.snake.tail@.len() > 0 {
            self.snake.tail@.last()
        } else {
            self.snake.head
        }
    }

    /// The score derived from accumulated body length: total reported length
    /// (head plus tail) less the initial body length of four, floored at
    /// zero.
    pub open spec fn spec_score(&self) -> int {
        if self.snake.tail@.len() >= INITIAL_TAIL_LEN {
            self.snake.tail@.len() - INITIAL_TAIL_LEN
        } else {
            0
        }
    }

    /// Builds an engine on a fresh board, spawning first the food and then
    /// the snake head at distinct random empty cells.
    pub fn new(width: u32, height: u32) -> (r: Logic)
        requires
            Logic::dims_ok(width, height),
        ensures
            r.wf(),
            r.board.width == width,
            r.board.height == height,
            r.snake.tail@.len() == 0,
            r.snake.direction == Direction::Idle,
            exists|i: int, j: int|
                {
                    &&& 0 <= i < width * height
                    &&& 0 <= j < width * height
                    &&& i != j
                    &&& r.food == #[trigger] spec_to_position(i as u32, width)
                    &&& r.snake.head == #[trigger] spec_to_position(j as u32, width)
                    &&& r.board.cells@ == Seq::new((width * height) as nat, |k: int| Cell::Empty)
                        .update(i, Cell::Food).update(j, Cell::Snake)
                },
    {
        let mut board = Board::new(width, height);
        let ghost cells0 = board.cells@;
        proof {
            assert(cells0[0] == Cell::Empty);
        }
        let food = Logic::position(&mut board, Cell::Food);
        let ghost i = choose|i: int|
            0 <= i < cells0.len() && cells0[i] == Cell::Empty && board.cells@ == cells0.update(
                i,
                Cell::Food,
            ) && food == spec_to_position(i as u32, width);
        proof {
            let j0: int = if i == 0 {
                1
            } else {
                0
            };
            assert(board.cells@[j0] == Cell::Empty);
        }
        let ghost cells1 = board.cells@;
        let head = Logic::position(&mut board, Cell::Snake);
        let snake = Snake::new(head);
        let r = Logic { board, snake, food };
        proof {
            let j = choose|j: int|
                0 <= j < cells1.len() && cells1[j] == Cell::Empty && r.board.cells@
                    == cells1.update(j, Cell::Snake) && head == spec_to_position(j as u32, width);
            assert(j != i);
            assert(r.board.cells@ == Seq::new((width * height) as nat, |k: int| Cell::Empty).update(
                i,
                Cell::Food,
            ).update(j, Cell::Snake));
        }
        r
    }

    /// Resets the engine in place: clears the board, clears the snake's
    /// tail, then respawns first the snake head and then the food at
    /// distinct random empty cells. The direction is left untouched.
    pub fn reset(&mut self)
        requires
            old(self).wf(),
        ensures
            final(self).wf(),
            final(self).board.width == old(self).board.width,
            final(self).board.height == old(self).board.height,
            final(self).snake.tail@.len() == 0,
            final(self).snake.direction == old(self).snake.direction,
            exists|i: int, j: int|
                {
                    &&& 0 <= i < old(self).board.width * old(self).board.height
                    &&& 0 <= j < old(self).board.width * old(self).board.height
                    &&& i != j
                    &&& final(self).snake.head == #[trigger] spec_to_position(
                        i as u32,
                        old(self).board.width,
                    )
                    &&& final(self).food == #[trigger] spec_to_position(
                        j as u32,
                        old(self).board.width,
                    )
                    &&& final(self).board.cells@ == Seq::new(
                        (old(self).board.width * old(self).board.height) as nat,
                        |k: int| Cell::Empty,
                    ).update(i, Cell::Snake).update(j, Cell::Food)
                },
    {
        let ghost width = self.board.width;
        let ghost height = self.board.height;
        self.board.reset();
        self.snake.reset();
        let ghost cells0 = self.board.cells@;
        proof {
            assert(cells0[0] == Cell::Empty);
        }
        let head = Logic::position(&mut self.board, Cell::Snake);
        self.snake.set_head(head);
        let ghost i = choose|i: int|
            0 <= i < cells0.len() && cells0[i] == Cell::Empty && self.board.cells@ == cells0.update(
                i,
                Cell::Snake,
            ) && head == spec_to_position(i as u32, width);
        proof {
            let j0: int = if i == 0 {
                1
            } else {
                0
            };
            assert(self.board.cells@[j0] == Cell::Empty);
        }
        let ghost cells1 = self.board.cells@;
        let food = Logic::position(&mut self.board, Cell::Food);
        self.food = food;
        proof {
            let j = choose|j: int|
                0 <= j < cells1.len() && cells1[j] == Cell::Empty && self.board.cells@
                    == cells1.update(j, Cell::Food) && food == spec_to_position(j as u32, width);
            assert(j != i);
            assert(self.board.cells@ == Seq::new((width * height) as nat, |k: int| Cell::Empty)
                .update(i, Cell::Snake).update(j, Cell::Food));
        }
    }

    /// Spawns `cell` at a uniformly chosen empty cell of `board` and returns
    /// that cell's position. The chosen cell was empty immediately prior to
    /// the spawn; nothing else on the board changes.
    pub fn position(board: &mut Board, cell: Cell) -> (r: Position)
        requires
            old(board).width >= 1,
            old(board).cells@.len() <= u32::MAX,
            Logic::spec_has_empty_cell(*old(board)),
        ensures
            final(board).width == old(board).width,
            final(board).height == old(board).height,
            exists|i: int|
                0 <= i < old(board).cells@.len() && #[trigger] old(board).cells@[i] == Cell::Empty
                    && final(board).cells@ == old(board).cells@.update(i, cell)
                    && r == spec_to_position(i as u32, old(board).width),
    {
        let empty_indexes = board.empty_indexes();
        proof {
            lemma_empty_indexes_members(board.cells@);
            lemma_empty_indexes_complete(board.cells@);
            let w = choose|i: int|
                0 <= i < board.cells@.len() && board.cells@[i] == Cell::Empty;
            assert(spec_empty_indexes(board.cells@).contains(w as usize));
        }
        let index = choose_index(&empty_indexes).unwrap();
        proof {
            let k = choose|k: int|
                0 <= k < empty_indexes@.len() && empty_indexes@[k] == index;
            assert(board.cells@[index as int] == Cell::Empty);
        }
        board.set(index, cell);
        board.to_position(index as u32)
    }

    /// Advances the simulation one tick. Reports death when the candidate
    /// head falls off the board or lands on the snake's body; otherwise the
    /// snake advances (growing on food, with a fresh food spawn), the
    /// candidate cell is marked as snake, and the engine reports the snake
    /// alive.
    pub fn step(&mut self) -> (alive: bool)
        requires
            old(self).wf(),
            old(self).snake.head.x < u32::MAX,
            old(self).snake.head.y < u32::MAX,
            old(self).snake.direction == Direction::Idle ==> spec_to_index(
                old(self).snake.head,
                old(self).board.width,
            ) < old(self).board.cells@.len(),
            old(self).spec_step_eats() ==> Logic::spec_has_empty_cell(old(self).board),
        ensures
            alive == old(self).spec_step_alive(),
            !alive ==> *final(self) == *old(self),
            alive ==> Logic::spec_step_effect(*old(self), *final(self)),
            final(self).wf(),
    {
        let position = match self.snake.step() {
            Some(position) => position,
            None => {
                return false;
            },
        };

        let can_proceed = self.proceed(position);
        if !can_proceed && !self.snake.current(position) {
            return false;
        }
        proof {
            let w = self.board.width;
            let h = self.board.height;
            if can_proceed {
                assert(position.x * w + position.y <= (w - 1) * w + (h - 1)) by (nonlinear_arith)
                    requires
                        position.x < w,
                        position.y < h,
                        1 <= w,
                ;
            } else {
                assert(position == self.snake.head);
                assert(self.snake.direction == Direction::Idle);
            }
        }
        let index = self.board.to_index(position);
        let cell = self.board.cells()[index as usize];

        match cell {
            Cell::Food => {
                self.snake.grow(position);
                self.food = Logic::position(&mut self.board, Cell::Food);
            },
            _ => self.snake.move_(position),
        }

        let index = self.board.to_index(position);
        self.board.set(index as usize, Cell::Snake);
        true
    }

    /// Whether the snake may advance onto `position`: false when the
    /// position exceeds the board or its cell is a board-tracked snake cell.
    fn proceed(&self, position: Position) -> (r: bool)
        requires
            self.wf(),
        ensures
            r == self.spec_proceed(position),
    {
        if position.x() >= self.board.width() || position.y() >= self.board.height() {
            return false;
        }
        proof {
            let w = self.board.width;
            let h = self.board.height;
            assert(position.x * w + position.y <= (w - 1) * w + (h - 1)) by (nonlinear_arith)
                requires
                    position.x < w,
                    position.y < h,
                    1 <= w,
            ;
        }
        let index = self.board.to_index(position);
        let cell = match self.board.get(index as usize) {
            Some(cell) => cell,
            None => {
                return false;
            },
        };
        cell != Cell::Snake
    }

    /// Returns the snake's full reported body: head first, then the trailing
    /// body in order.
    pub fn snake(&self) -> (r: Vec<Position>)
        ensures
            r@ == seq![self.snake.head] + self.snake.tail@,
    {
        let mut body: Vec<Position> = Vec::new();
        body.push(self.snake.head());
        let tail = self.snake.tail();
        let mut i: usize = 0;
        let n = tail.len();
        while i < n
            invariant
                i <= n,
                n == tail@.len(),
                tail@ == self.snake.tail@,
                body@ == seq![self.snake.head] + self.snake.tail@.take(i as int),
            decreases n - i,
        {
            body.push(tail[i]);
            proof {
                assert(seq![self.snake.head] + self.snake.tail@.take(i + 1) =~= (seq![
                    self.snake.head,
                ] + self.snake.tail@.take(i as int)).push(self.snake.tail@[i as int]));
            }
            i = i + 1;
        }
        proof {
            assert(self.snake.tail@.take(n as int) =~= self.snake.tail@);
        }
        body
    }

    /// Returns the current food position.
    pub fn food(&self) -> (r: Position)
        ensures
            r == self.food,
    {
        self.food
    }

    /// Returns the snake for direct inspection, and for direction changes
    /// delivered by an input handler between ticks.
    pub fn snake_ref(&self) -> (r: &Snake)
        ensures
            *r == self.snake,
    {
        &self.snake
    }

    /// Returns the score: total reported body length less the initial body
    /// length of four, floored at zero. Food events grow the body
    /// permanently, so each one raises the score by one.
    pub fn score(&self) -> (r: usize)
        ensures
            r == self.spec_score(),
    {
        let tail_len = self.snake.tail().len();
        if tail_len >= INITIAL_TAIL_LEN {
            tail_len - INITIAL_TAIL_LEN
        } else {
            0
        }
    }

    /// Marks the board cell about to fall off the rendered trailing body as
    /// empty and returns its position, so a renderer can erase it. While the
    /// game is idle there is nothing to retire. Must run once per tick,
    /// before `step` mutates the state.
    pub fn passed(&mut self) -> (r: Option<Position>)
        requires
            old(self).wf(),
            old(self).snake.direction != Direction::Idle ==> spec_to_index(
                old(self).spec_retire_position(),
                old(self).board.width,
            ) < old(self).board.cells@.len(),
        ensures
            old(self).snake.direction == Direction::Idle ==> r is None && *final(self) == *old(
                self,
            ),
            old(self).snake.direction != Direction::Idle ==> {
                let p = old(self).spec_retire_position();
                &&& r == Some(p)
                &&& final(self).board.cells@ == old(self).board.cells@.update(
                    spec_to_index(p, old(self).board.width),
                    Cell::Empty,
                )
                &&& final(self).board.width == old(self).board.width
                &&& final(self).board.height == old(self).board.height
                &&& final(self).snake == old(self).snake
                &&& final(self).food == old(self).food
            },
            final(self).wf(),
    {
        if self.snake.direction() == Direction::Idle {
            return None;
        }
        let position = match self.snake.last() {
            Some(position) => position,
            None => self.snake.head(),
        };

        let passed_index = self.board.to_index(position);
        self.board.set(passed_index as usize, Cell::Empty);
        Some(position)
    }
}

/// Immediately after construction or reset the trailing body is empty, and a
/// body of head alone scores zero: no food has been eaten yet.
pub proof fn lemma_score_zero_when_tail_empty(logic: Logic)
    requires
        logic.snake.tail@.len() == 0,
    ensures
        logic.spec_score() == 0,
{
}

} // verus!
