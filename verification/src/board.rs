//! The game board: a fixed-size grid of cell states stored row-major by the
//! `x * width + y` rule, with bijective index/coordinate conversion and
//! enumeration of the empty cells.

use vstd::prelude::*;

use crate::data::{Cell, Position};

verus! {

/// The flat index of a position under the board's `x * width + y` layout.
pub open spec fn spec_to_index(position: Position, width: u32) -> int {
    position.x * width + position.y
}

/// The position of a flat index under the board's `x * width + y` layout.
pub open spec fn spec_to_position(index: u32, width: u32) -> Position
    recommends
        width > 0,
{
    Position { x: (index as int / width as int) as u32, y: (index as int % width as int) as u32 }
}

/// The indices of the empty cells of `cells`, in ascending index order.
pub open spec fn spec_empty_indexes(cells: Seq<Cell>) -> Seq<usize>
    decreases cells.len(),
{
    if cells.len() == 0 {
        Seq::empty()
    } else if cells.last() == Cell::Empty {
        spec_empty_indexes(cells.drop_last()).push((cells.len() - 1) as usize)
    } else {
        spec_empty_indexes(cells.drop_last())
    }
}

/// Every enumerated empty index is in range and names an empty cell.
pub proof fn lemma_empty_indexes_members(cells: Seq<Cell>)
    requires
        cells.len() <= usize::MAX,
    ensures
        forall|k: int|
            0 <= k < spec_empty_indexes(cells).len() ==> #[trigger] spec_empty_indexes(
                cells,
            )[k] < cells.len() && cells[spec_empty_indexes(cells)[k] as int] == Cell::Empty,
    decreases cells.len(),
{
    if cells.len() > 0 {
        lemma_empty_indexes_members(cells.drop_last());
        let sub = spec_empty_indexes(cells.drop_last());
        assert forall|k: int|
            0 <= k < spec_empty_indexes(cells).len() implies #[trigger] spec_empty_indexes(
            cells,
        )[k] < cells.len() && cells[spec_empty_indexes(cells)[k] as int] == Cell::Empty by {
            if k < sub.len() {
                assert(spec_empty_indexes(cells.drop_last())[k] < cells.drop_last().len());
                assert(cells.drop_last()[sub[k] as int] == Cell::Empty);
                assert(cells.drop_last()[sub[k] as int] == cells[sub[k] as int]);
                assert(spec_empty_indexes(cells)[k] == sub[k]);
            } else {
                assert(cells.last() == Cell::Empty);
                assert(spec_empty_indexes(cells) == sub.push((cells.len() - 1) as usize));
                assert(spec_empty_indexes(cells)[k] == (cells.len() - 1) as usize);
                assert(cells[cells.len() - 1] == Cell::Empty);
            }
        }
    }
}

/// Every empty cell of `cells` appears among the enumerated empty indices.
pub proof fn lemma_empty_indexes_complete(cells: Seq<Cell>)
    requires
        cells.len() <= usize::MAX,
    ensures
        forall|i: int|
            0 <= i < cells.len() && cells[i] == Cell::Empty ==> spec_empty_indexes(
                cells,
            ).contains(i as usize),
    decreases cells.len(),
{
    if cells.len() > 0 {
        lemma_empty_indexes_complete(cells.drop_last());
        assert forall|i: int|
            0 <= i < cells.len() && cells[i] == Cell::Empty implies spec_empty_indexes(
            cells,
        ).contains(i as usize) by {
            if i < cells.len() - 1 {
                assert(cells.drop_last()[i] == Cell::Empty);
                let k = choose|k: int|
                    0 <= k < spec_empty_indexes(cells.drop_last()).len()
                        && spec_empty_indexes(cells.drop_last())[k] == i as usize;
                assert(spec_empty_indexes(cells)[k] == i as usize);
            } else {
                let last = spec_empty_indexes(cells).len() - 1;
                assert(spec_empty_indexes(cells)[last] == i as usize);
            }
        }
    }
}

/// The enumerated empty indices come in strictly ascending order.
pub proof fn lemma_empty_indexes_sorted(cells: Seq<Cell>)
    requires
        cells.len() <= usize::MAX,
    ensures
        forall|k1: int, k2: int|
            0 <= k1 < k2 < spec_empty_indexes(cells).len() ==> #[trigger] spec_empty_indexes(
                cells,
            )[k1] < #[trigger] spec_empty_indexes(cells)[k2],
    decreases cells.len(),
{
    if cells.len() > 0 {
        lemma_empty_indexes_sorted(cells.drop_last());
        lemma_empty_indexes_members(cells.drop_last());
        let sub = spec_empty_indexes(cells.drop_last());
        assert forall|k1: int, k2: int|
            0 <= k1 < k2 < spec_empty_indexes(cells).len() implies #[trigger] spec_empty_indexes(
            cells,
        )[k1] < #[trigger] spec_empty_indexes(cells)[k2] by {
            if k2 < sub.len() {
                assert(spec_empty_indexes(cells)[k1] == sub[k1]);
                assert(spec_empty_indexes(cells)[k2] == sub[k2]);
            } else {
                assert(cells.last() == Cell::Empty);
                assert(spec_empty_indexes(cells)[k2] == (cells.len() - 1) as usize);
                assert(sub[k1] < cells.drop_last().len());
                assert(spec_empty_indexes(cells)[k1] == sub[k1]);
            }
        }
    }
}

/// On a board whose cells are all empty, the enumeration lists every index.
pub proof fn lemma_empty_indexes_all_empty(cells: Seq<Cell>)
    requires
        forall|i: int| 0 <= i < cells.len() ==> #[trigger] cells[i] == Cell::Empty,
    ensures
        spec_empty_indexes(cells).len() == cells.len(),
    decreases cells.len(),
{
    if cells.len() > 0 {
        lemma_empty_indexes_all_empty(cells.drop_last());
    }
}

/// A freshly reset board of size `width * height` has exactly
/// `width * height` empty indices.
pub proof fn lemma_reset_empty_count(width: u32, height: u32)
    ensures
        spec_empty_indexes(Seq::new((width * height) as nat, |i: int| Cell::Empty)).len() == width
            * height,
{
    lemma_empty_indexes_all_empty(Seq::new((width * height) as nat, |i: int| Cell::Empty));
}

/// Converting a flat index to a position and back yields the index again,
/// for every index on a board of positive width.
pub proof fn lemma_index_round_trip(index: u32, width: u32)
    requires
        width >= 1,
    ensures
        spec_to_index(spec_to_position(index, width), width) == index,
{
    assert((index as int / width as int) * width as int + index as int % width as int
        == index as int) by (nonlinear_arith)
        requires
            width >= 1,
    ;
    assert(0 <= index as int / width as int && index as int / width as int <= index as int)
        by (nonlinear_arith)
        requires
            width >= 1,
    ;
    assert(0 <= index as int % width as int && (index as int % width as int) < width as int)
        by (nonlinear_arith)
        requires
            width >= 1,
    ;
}

/// Converting a position to its flat index and back yields the position
/// again, for every position whose `y` lies inside the row width and whose
/// index fits the index type.
pub proof fn lemma_position_round_trip(position: Position, width: u32)
    requires
        width >= 1,
        position.y < width,
        spec_to_index(position, width) <= u32::MAX,
    ensures
        spec_to_position(spec_to_index(position, width) as u32, width) == position,
{
    let index = position.x * width + position.y;
    assert(index / width as int == position.x && index % width as int == position.y)
        by (nonlinear_arith)
        requires
            width >= 1,
            position.y < width,
            index == position.x * width + position.y,
    ;
}

/// A fixed-size grid of cell states. The cell vector always holds exactly
/// `width * height` entries, addressed by the `x * width + y` rule.
pub struct Board {
    pub width: u32,
    pub height: u32,
    pub cells: Vec<Cell>,
}

impl Board {
    /// The board's structural invariant: one stored cell per grid position.
    pub open spec fn wf(&self) -> bool {
        self.cells@.len() == self.width * self.height
    }

    /// Builds a board of the given size with all cells empty.
    pub fn new(width: u32, height: u32) -> (r: Board)
        requires
            width * height <= u32::MAX,
        ensures
            r.width == width,
            r.height == height,
            r.cells@ == Seq::new((width * height) as nat, |i: int| Cell::Empty),
            r.wf(),
    {
        let cells: Vec<Cell> = Board::empty(width, height);
        Board { width, height, cells }
    }

    /// Reinitializes every cell to empty in place.
    pub fn reset(&mut self)
        requires
            old(self).width * old(self).height <= u32::MAX,
        ensures
            final(self).width == old(self).width,
            final(self).height == old(self).height,
            final(self).cells@ == Seq::new((old(self).width * old(self).height) as nat, |i: int| Cell::Empty),
            final(self).wf(),
    {
        self.cells = Board::empty(self.width, self.height);
    }

    /// Builds the cell vector of an all-empty board of the given size.
    pub fn empty(width: u32, height: u32) -> (r: Vec<Cell>)
        requires
            width * height <= u32::MAX,
        ensures
            r@ == Seq::new((width * height) as nat, |i: int| Cell::Empty),
    {
        let total: u32 = width * height;
        let mut cells: Vec<Cell> = Vec::new();
        let mut i: u32 = 0;
        while i < total
            invariant
                i <= total,
                cells@.len() == i,
                forall|j: int| 0 <= j < i ==> cells@[j] == Cell::Empty,
            decreases total - i,
        {
            cells.push(Cell::Empty);
            i = i + 1;
        }
        proof {
            assert(cells@ =~= Seq::new((width * height) as nat, |j: int| Cell::Empty));
        }
        cells
    }

    /// Returns the indices of the currently empty cells, in ascending order.
    pub fn empty_indexes(&self) -> (r: Vec<usize>)
        ensures
            r@ == spec_empty_indexes(self.cells@),
    {
        let mut r: Vec<usize> = Vec::new();
        let mut i: usize = 0;
        let n = self.cells.len();
        while i < n
            invariant
                i <= n,
                n == self.cells@.len(),
                r@ == spec_empty_indexes(self.cells@.take(i as int)),
            decreases n - i,
        {
            proof {
                assert(self.cells@.take(i + 1).drop_last() =~= self.cells@.take(i as int));
                assert(self.cells@.take(i + 1).last() == self.cells@[i as int]);
            }
            if self.cells[i] == Cell::Empty {
                r.push(i);
            }
            i = i + 1;
        }
        proof {
            assert(self.cells@.take(n as int) =~= self.cells@);
        }
        r
    }

    /// Returns the flat index of a position. Performs no bounds checking:
    /// callers must validate the coordinates against the board size first.
    pub fn to_index(&self, position: Position) -> (r: u32)
        requires
            spec_to_index(position, self.width) <= u32::MAX,
        ensures
            r == spec_to_index(position, self.width),
    {
        position.x() * self.width + position.y()
    }

    /// Returns the position of a flat index. Performs no bounds checking:
    /// an index at or past the cell count yields a position off the board.
    pub fn to_position(&self, index: u32) -> (r: Position)
        requires
            self.width >= 1,
        ensures
            r == spec_to_position(index, self.width),
    {
        let x = index / self.width;
        let y = index % self.width;
        Position::new(x, y)
    }

    /// Replaces the cell at `index` and returns the prior value.
    pub fn set(&mut self, index: usize, cell: Cell) -> (r: Cell)
        requires
            index < old(self).cells@.len(),
        ensures
            final(self).width == old(self).width,
            final(self).height == old(self).height,
            final(self).cells@ == old(self).cells@.update(index as int, cell),
            r == old(self).cells@[index as int],
    {
        let prev = self.cells[index];
        self.cells[index] = cell;
        prev
    }

    /// Returns the cell at `index`, or nothing when the index is out of
    /// bounds.
    pub fn get(&self, index: usize) -> (r: Option<Cell>)
        ensures
            r == if index < self.cells@.len() {
                Some(self.cells@[index as int])
            } else {
                Option::<Cell>::None
            },
    {
        if index < self.cells.len() {
            Some(self.cells[index])
        } else {
            None
        }
    }

    /// Returns the stored cells.
    pub fn cells(&self) -> (r: &Vec<Cell>)
        ensures
            r@ == self.cells@,
    {
        &self.cells
    }

    /// Returns the number of stored cells.
    pub fn len(&self) -> (r: usize)
        ensures
            r == self.cells@.len(),
    {
        self.cells.len()
    }

    /// Returns the board width.
    pub fn width(&self) -> (r: u32)
        ensures
            r == self.width,
    {
        self.width
    }

    /// Returns the board height.
    pub fn height(&self) -> (r: u32)
        ensures
            r == self.height,
    {
        self.height
    }
}

} // verus!
