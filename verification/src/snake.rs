//! The snake's body: an ordered run of grid cells, head first, together with
//! the heading it keeps between moves and the cell it left behind last.

use std::collections::VecDeque;
use vstd::prelude::*;

verus! {

/// A heading on the grid. The y axis grows downward, so `Up` lowers y.
#[derive(Copy, Clone, PartialEq, Eq, Structural, Debug)]
pub enum Direction {
    Up,
    Down,
    Left,
    Right,
}

impl Direction {
    /// The reverse heading, as a specification.
    pub open spec fn spec_opposite(&self) -> Direction {
        match *self {
            Direction::Up => Direction::Down,
            Direction::Down => Direction::Up,
            Direction::Left => Direction::Right,
            Direction::Right => Direction::Left,
        }
    }

    /// The heading that points the other way.
    #[verifier::when_used_as_spec(spec_opposite)]
    pub fn opposite(&self) -> (r: Direction)
        ensures
            r == self.spec_opposite(),
    {
        match *self {
            Direction::Up => Direction::Down,
            Direction::Down => Direction::Up,
            Direction::Left => Direction::Right,
            Direction::Right => Direction::Left,
        }
    }
}

/// A cell of the unbounded grid, as the pair `(x, y)`.
pub type Cell = (int, int);

/// The cell that a stored pair of coordinates stands for.
pub open spec fn cell_of(b: (i32, i32)) -> Cell {
    (b.0 as int, b.1 as int)
}

/// The cells that a run of stored coordinate pairs stands for, in order.
pub open spec fn cells_of(s: Seq<(i32, i32)>) -> Seq<Cell> {
    s.map_values(|b: (i32, i32)| cell_of(b))
}

/// Whether both coordinates of `c` can be stored.
pub open spec fn storable(c: Cell) -> bool {
    &&& i32::MIN <= c.0 <= i32::MAX
    &&& i32::MIN <= c.1 <= i32::MAX
}

/// The neighbour of `c` one step along `d`.
pub open spec fn step(c: Cell, d: Direction) -> Cell {
    match d {
        Direction::Up => (c.0, c.1 - 1),
        Direction::Down => (c.0, c.1 + 1),
        Direction::Left => (c.0 - 1, c.1),
        Direction::Right => (c.0 + 1, c.1),
    }
}

/// The mathematical content of a [`Snake`].
#[verifier::ext_equal]
pub struct SnakeView {
    /// The cells of the body in order, head at index 0, tail last.
    pub cells: Seq<Cell>,
    /// The heading of the last move, kept until another one is given.
    pub facing: Direction,
    /// The cell that the last move took off the end, if there was a move.
    pub detached: Option<Cell>,
}

impl SnakeView {
    /// A body always has a head.
    pub open spec fn wf(self) -> bool {
        self.cells.len() >= 1
    }

    /// The body that starts a game: three cells in a row from `(x, y)`
    /// rightwards, heading right, with nothing detached yet.
    pub open spec fn initial(x: int, y: int) -> SnakeView {
        SnakeView {
            cells: seq![(x + 2, y), (x + 1, y), (x, y)],
            facing: Direction::Right,
            detached: None,
        }
    }

    /// The first cell.
    pub open spec fn head(self) -> Cell {
        self.cells[0]
    }

    /// The heading of a move asked for with `dir`: `dir` itself if one is
    /// given, else the heading kept so far.
    pub open spec fn heading(self, dir: Option<Direction>) -> Direction {
        match dir {
            Some(d) => d,
            None => self.facing,
        }
    }

    /// Where the head would stand after a move asked for with `dir`.
    pub open spec fn next_head(self, dir: Option<Direction>) -> Cell {
        step(self.head(), self.heading(dir))
    }

    /// The body after one move: the new head in front, the last cell taken
    /// off and remembered, the heading updated.
    pub open spec fn advance(self, dir: Option<Direction>) -> SnakeView {
        SnakeView {
            cells: seq![self.next_head(dir)] + self.cells.drop_last(),
            facing: self.heading(dir),
            detached: Some(self.cells.last()),
        }
    }

    /// The body with the remembered cell put back at the end.
    pub open spec fn grow(self) -> SnakeView {
        SnakeView { cells: self.cells.push(self.detached->0), ..self }
    }

    /// Whether `c` is one of the cells other than the last one.
    pub open spec fn overlaps(self, c: Cell) -> bool {
        exists|i: int| 0 <= i < self.cells.len() - 1 && self.cells[i] == c
    }
}

/// The snake: its cells from head to tail, its heading, and the cell that
/// its last move vacated.
pub struct Snake {
    direction: Direction,
    body: VecDeque<(i32, i32)>,
    tail: Option<(i32, i32)>,
}

impl View for Snake {
    type V = SnakeView;

    closed spec fn view(&self) -> SnakeView {
        SnakeView {
            cells: cells_of(self.body@),
            facing: self.direction,
            detached: match self.tail {
                Some(b) => Some(cell_of(b)),
                None => None,
            },
        }
    }
}

impl Snake {
    /// The invariant of every snake that this module hands out.
    pub open spec fn wf(&self) -> bool {
        self@.wf()
    }

    /// A snake of three cells laid out from `(x, y)` to `(x + 2, y)`, the
    /// head at the right end, heading right.
    pub fn new(x: i32, y: i32) -> (s: Snake)
        requires
            x + 2 <= i32::MAX,
        ensures
            s.wf(),
            s@ == SnakeView::initial(x as int, y as int),
            s@.head() == (x + 2, y as int),
            s@.cells.len() == 3,
    {
        let mut body: VecDeque<(i32, i32)> = VecDeque::new();
        body.push_back((x + 2, y));
        body.push_back((x + 1, y));
        body.push_back((x, y));
        let s = Snake { direction: Direction::Right, body, tail: None };
        assert(s@ =~= SnakeView::initial(x as int, y as int));
        s
    }

    /// The cell of the head.
    pub fn head_position(&self) -> (r: (i32, i32))
        requires
            self.wf(),
        ensures
            cell_of(r) == self@.head(),
    {
        let head: (i32, i32) = self.body[0];
        (head.0, head.1)
    }

    /// Moves one cell: along `dir` if one is given, which then becomes the
    /// heading, else along the heading kept so far. The head enters the
    /// next cell, the last cell is given up and remembered.
    pub fn move_forward(&mut self, dir: Option<Direction>)
        requires
            old(self).wf(),
            storable(old(self)@.next_head(dir)),
        ensures
            final(self).wf(),
            final(self)@ == old(self)@.advance(dir),
            final(self)@.cells.len() == old(self)@.cells.len(),
    {
        match dir {
            Some(d) => self.direction = d,
            None => {},
        }
        let (last_x, last_y): (i32, i32) = self.head_position();
        let new_block: (i32, i32) = match self.direction {
            Direction::Up => (last_x, last_y - 1),
            Direction::Down => (last_x, last_y + 1),
            Direction::Left => (last_x - 1, last_y),
            Direction::Right => (last_x + 1, last_y),
        };
        self.body.push_front(new_block);
        let removed_block: (i32, i32) = self.body.pop_back().unwrap();
        self.tail = Some(removed_block);
        assert(self@ =~= old(self)@.advance(dir));
    }

    /// The heading of the last move.
    pub fn head_direction(&self) -> (r: Direction)
        ensures
            r == self@.facing,
    {
        self.direction
    }

    /// The cell that a move asked for with `dir` would bring the head to.
    /// The snake itself stays as it is.
    pub fn next_head(&mut self, dir: Option<Direction>) -> (r: (i32, i32))
        requires
            old(self).wf(),
            storable(old(self)@.next_head(dir)),
        ensures
            *final(self) == *old(self),
            cell_of(r) == old(self)@.next_head(dir),
    {
        let (head_x, head_y): (i32, i32) = self.head_position();
        let mut moving_dir = self.direction;
        match dir {
            Some(d) => moving_dir = d,
            None => {},
        }
        match moving_dir {
            Direction::Up => (head_x, head_y - 1),
            Direction::Down => (head_x, head_y + 1),
            Direction::Left => (head_x - 1, head_y),
            Direction::Right => (head_x + 1, head_y),
        }
    }

    /// Puts the cell that the last move vacated back at the end, so that the
    /// move has made the snake one cell longer.
    pub fn restore_tail(&mut self)
        requires
            old(self).wf(),
            old(self)@.detached is Some,
        ensures
            final(self).wf(),
            final(self)@ == old(self)@.grow(),
            final(self)@.cells.len() == old(self)@.cells.len() + 1,
    {
        let block: (i32, i32) = self.tail.unwrap();
        self.body.push_back(block);
        assert(self@ =~= old(self)@.grow());
    }

    /// Whether `(x, y)` is a cell of the body other than the last one. The
    /// last cell is left out because it is vacated by the very move that
    /// could bring the head there.
    pub fn overlap_tail(&self, x: i32, y: i32) -> (r: bool)
        requires
            self.wf(),
        ensures
            r == self@.overlaps((x as int, y as int)),
    {
        let checked: usize = self.body.len() - 1;
        let mut ch: usize = 0;
        while ch < checked
            invariant
                checked == self.body@.len() - 1,
                ch <= checked,
                forall|i: int| 0 <= i < ch ==> self@.cells[i] != (x as int, y as int),
            decreases checked - ch,
        {
            let block: (i32, i32) = self.body[ch];
            if x == block.0 && y == block.1 {
                assert(self@.cells[ch as int] == (x as int, y as int));
                return true;
            }
            ch += 1;
        }
        false
    }

    /// The cells to paint, head first.
    pub fn draw(&self) -> (cells: Vec<(i32, i32)>)
        ensures
            cells_of(cells@) == self@.cells,
    {
        let mut cells: Vec<(i32, i32)> = Vec::new();
        let mut i: usize = 0;
        while i < self.body.len()
            invariant
                i <= self.body@.len(),
                cells@ == self.body@.take(i as int),
            decreases self.body@.len() - i,
        {
            cells.push(self.body[i]);
            i += 1;
        }
        assert(cells@ =~= self.body@);
        cells
    }
}

} // verus!
