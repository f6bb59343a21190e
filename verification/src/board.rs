//! The grid: a `height x width` matrix of display symbols, kept as the
//! rendered projection of the snake and the fruit. Callers update it with
//! explicit "erase old, draw new" edits; the redraw pass is authoritative.

use vstd::prelude::*;

use crate::geometry::Coord;
use crate::snake::Snake;

verus! {

/// What a cell shows.
#[derive(Clone, Copy, PartialEq, Eq, Structural, Debug)]
pub enum Symbol {
    Background,
    Body,
    Fruit,
}

/// Why a board could not be built.
#[derive(Clone, Copy, PartialEq, Eq, Structural, Debug)]
pub enum BoardError {
    /// Height or width was zero.
    ZeroDimension,
}

/// A `height x width` matrix of symbols, addressed as `cells[y][x]`.
#[derive(Debug)]
pub struct Board {
    pub height: usize,
    pub width: usize,
    pub cells: Vec<Vec<Symbol>>,
}

impl Board {
    /// The board's shape is consistent: positive dimensions, one row per
    /// unit of height, and `width` cells in every row.
    pub open spec fn wf(self) -> bool {
        &&& 0 < self.height
        &&& 0 < self.width
        &&& self.cells@.len() == self.height
        &&& forall|r: int|
            0 <= r < self.height ==> (#[trigger] self.cells@[r])@.len() == self.width
    }

    /// `c` addresses a cell of this board.
    pub open spec fn in_range(self, c: Coord) -> bool {
        c.x < self.width && c.y < self.height
    }

    /// The symbol shown at `c`.
    pub open spec fn cell(self, c: Coord) -> Symbol {
        self.cells@[c.y as int]@[c.x as int]
    }

    /// A board filled with the background symbol. Zero dimensions are
    /// rejected rather than yielding an unusable grid.
    pub fn new(height: usize, width: usize) -> (r: Result<Board, BoardError>)
        ensures
            r is Err <==> (height == 0 || width == 0),
            r is Err ==> r->Err_0 == BoardError::ZeroDimension,
            r is Ok ==> {
                let b = r->Ok_0;
                &&& b.wf()
                &&& b.height == height
                &&& b.width == width
                &&& forall|c: Coord| b.in_range(c) ==> b.cell(c) == Symbol::Background
            },
    {
        if height == 0 || width == 0 {
            return Err(BoardError::ZeroDimension);
        }
        let mut cells: Vec<Vec<Symbol>> = Vec::new();
        let mut row_idx: usize = 0;
        while row_idx < height
            invariant
                row_idx <= height,
                cells@.len() == row_idx,
                forall|r: int| 0 <= r < row_idx ==> (#[trigger] cells@[r])@.len() == width,
                forall|r: int, x: int|
                    0 <= r < row_idx && 0 <= x < width ==> (#[trigger] cells@[r]@[x])
                        == Symbol::Background,
            decreases height - row_idx,
        {
            let mut row: Vec<Symbol> = Vec::new();
            let mut col_idx: usize = 0;
            while col_idx < width
                invariant
                    col_idx <= width,
                    row@.len() == col_idx,
                    forall|x: int| 0 <= x < col_idx ==> row@[x] == Symbol::Background,
                decreases width - col_idx,
            {
                row.push(Symbol::Background);
                col_idx = col_idx + 1;
            }
            cells.push(row);
            row_idx = row_idx + 1;
        }
        Ok(Board { height, width, cells })
    }

    /// Overwrite the cell at `c` with `s`; every other cell is untouched.
    pub fn set(&mut self, c: Coord, s: Symbol)
        requires
            old(self).wf(),
            old(self).in_range(c),
        ensures
            final(self).wf(),
            final(self).height == old(self).height,
            final(self).width == old(self).width,
            final(self).cell(c) == s,
            forall|o: Coord|
                old(self).in_range(o) && o != c ==> final(self).cell(o) == old(self).cell(o),
    {
        self.cells[c.y][c.x] = s;
    }

    /// Redraw the snake: erase the cell its tail just left, then paint every
    /// body cell. The erase comes first, so a still-occupied old tail (kept
    /// while growing) is painted back as body by the authoritative pass.
    pub fn draw_snake(&mut self, snake: &Snake, old_position: Coord)
        requires
            old(self).wf(),
            old(self).in_range(old_position),
            snake.in_bounds(old(self).width as int, old(self).height as int),
        ensures
            final(self).wf(),
            final(self).height == old(self).height,
            final(self).width == old(self).width,
            forall|c: Coord|
                final(self).in_range(c) ==> final(self).cell(c) == (if snake.positions@.contains(
                    c,
                ) {
                    Symbol::Body
                } else if c == old_position {
                    Symbol::Background
                } else {
                    old(self).cell(c)
                }),
    {
        self.set(old_position, Symbol::Background);
        let n = snake.positions.len();
        let mut i: usize = 0;
        while i < n
            invariant
                i <= n,
                n == snake.positions@.len(),
                self.wf(),
                self.height == old(self).height,
                self.width == old(self).width,
                snake.in_bounds(self.width as int, self.height as int),
                old(self).in_range(old_position),
                forall|c: Coord|
                    self.in_range(c) ==> self.cell(c) == (
                    if snake.positions@.take(i as int).contains(c) {
                        Symbol::Body
                    } else if c == old_position {
                        Symbol::Background
                    } else {
                        old(self).cell(c)
                    }),
            decreases n - i,
        {
            let ghost prefix = snake.positions@.take(i as int);
            self.set(snake.positions[i], Symbol::Body);
            proof {
                broadcast use vstd::seq_lib::lemma_seq_contains_after_push;

                assert(snake.positions@.take(i + 1) =~= prefix.push(snake.positions@[i as int]));
            }
            i = i + 1;
        }
        proof {
            assert(snake.positions@.take(n as int) =~= snake.positions@);
        }
    }

    /// Paint the fruit cell, overwriting whatever symbol is there.
    pub fn draw_fruit(&mut self, fruit_position: Coord)
        requires
            old(self).wf(),
            old(self).in_range(fruit_position),
        ensures
            final(self).wf(),
            final(self).height == old(self).height,
            final(self).width == old(self).width,
            final(self).cell(fruit_position) == Symbol::Fruit,
            forall|o: Coord|
                old(self).in_range(o) && o != fruit_position ==> final(self).cell(o) == old(
                    self,
                ).cell(o),
    {
        self.set(fruit_position, Symbol::Fruit);
    }
}

} // verus!
