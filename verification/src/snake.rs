//! The snake: an ordered run of occupied cells, a heading, and a pending
//! growth counter. Movement advances the head with wrap-around and retains
//! the tail for one tick per pending unit of growth.

use std::collections::VecDeque;
use vstd::prelude::*;

use crate::board::Board;
use crate::geometry::Coord;
use crate::geometry::Direction;
use crate::geometry::advance;
use crate::geometry::step_coord;

verus! {

/// Why a snake could not be placed on a board.
#[derive(Clone, Copy, PartialEq, Eq, Structural, Debug)]
pub enum SnakeError {
    /// The board has fewer than two rows, so the two vertically adjacent
    /// starting cells do not fit.
    BoardTooSmall,
}

/// The snake's body as an ordered double-ended sequence of cells, tail
/// first and head last, together with its heading and the number of growth
/// units not yet turned into length.
#[derive(Debug)]
pub struct Snake {
    pub direction: Direction,
    pub positions: VecDeque<Coord>,
    pub grow: usize,
}

/// The body after one movement tick: a new head one step ahead of the old
/// head, and the tail cell retained exactly when growth is pending.
pub open spec fn moved_positions(
    positions: Seq<Coord>,
    grow: nat,
    d: Direction,
    width: int,
    height: int,
) -> Seq<Coord> {
    let new_head = step_coord(positions.last(), d, width, height);
    if grow > 0 {
        positions.push(new_head)
    } else {
        positions.drop_first().push(new_head)
    }
}

/// The pending growth counter after one movement tick: one unit is consumed
/// when any is pending.
pub open spec fn moved_grow(grow: nat) -> nat {
    if grow > 0 {
        (grow - 1) as nat
    } else {
        0
    }
}

/// Law: one movement tick conserves body length plus pending growth. The
/// visible length is unchanged while no growth is pending, and grows by
/// exactly one cell on a tick that consumes a unit of growth.
pub proof fn lemma_length_accounting(
    positions: Seq<Coord>,
    grow: nat,
    d: Direction,
    width: int,
    height: int,
)
    requires
        positions.len() >= 1,
    ensures
        moved_positions(positions, grow, d, width, height).len() + moved_grow(grow) == positions.len()
            + grow,
        grow == 0 ==> moved_positions(positions, grow, d, width, height).len() == positions.len(),
        grow > 0 ==> moved_positions(positions, grow, d, width, height).len() == positions.len()
            + 1,
{
}

/// Whether `c` is one of the cells in `v`.
pub fn contains_coord(v: &VecDeque<Coord>, c: Coord) -> (r: bool)
    ensures
        r == v@.contains(c),
{
    let n = v.len();
    let mut i: usize = 0;
    while i < n
        invariant
            i <= n,
            n == v@.len(),
            forall|k: int| 0 <= k < i ==> v@[k] != c,
        decreases n - i,
    {
        if v[i] == c {
            return true;
        }
        i = i + 1;
    }
    false
}

impl Snake {
    /// Every body cell lies on a `width x height` grid.
    pub open spec fn in_bounds(self, width: int, height: int) -> bool {
        forall|i: int|
            0 <= i < self.positions@.len() ==> (#[trigger] self.positions@[i]).x < width
                && self.positions@[i].y < height
    }

    /// A new snake centered on the board: two vertically adjacent cells with
    /// the head above the tail, heading down, no growth pending.
    pub fn new(board: &Board) -> (r: Result<Snake, SnakeError>)
        requires
            board.wf(),
        ensures
            r is Err <==> board.height < 2,
            r is Err ==> r->Err_0 == SnakeError::BoardTooSmall,
            r is Ok ==> {
                let s = r->Ok_0;
                &&& s.direction == Direction::Down
                &&& s.grow == 0
                &&& s.positions@.len() == 2
                &&& s.positions@[0] == (Coord {
                    x: (board.width as int / 2) as usize,
                    y: (board.height as int / 2) as usize,
                })
                &&& s.positions@[1] == (Coord {
                    x: (board.width as int / 2) as usize,
                    y: (board.height as int / 2 - 1) as usize,
                })
                &&& s.in_bounds(board.width as int, board.height as int)
            },
    {
        if board.height < 2 {
            return Err(SnakeError::BoardTooSmall);
        }
        let x = board.width / 2;
        let y = board.height / 2;
        let mut positions: VecDeque<Coord> = VecDeque::new();
        positions.push_back(Coord { x, y });
        positions.push_back(Coord { x, y: y - 1 });
        Ok(Snake { direction: Direction::Down, positions, grow: 0 })
    }

    /// Defer one unit of growth: the tail will be retained for one extra
    /// tick. No geometry changes now.
    pub fn grow(&mut self)
        requires
            old(self).grow < usize::MAX,
        ensures
            final(self).grow == old(self).grow + 1,
            final(self).positions@ == old(self).positions@,
            final(self).direction == old(self).direction,
    {
        self.grow = self.grow + 1;
    }

    /// One movement tick. Returns the cell that was the tail before the
    /// tick, for the caller to erase from the grid. The tail is removed
    /// unless growth is pending, in which case a unit of growth is consumed
    /// instead; the new head is one wrap-around step ahead of the old head.
    pub fn move_position(&mut self, board: &Board) -> (r: Coord)
        requires
            board.wf(),
            old(self).positions@.len() >= 1,
            old(self).grow > 0 || old(self).positions@.len() >= 2,
            old(self).in_bounds(board.width as int, board.height as int),
        ensures
            r == old(self).positions@[0],
            final(self).direction == old(self).direction,
            final(self).grow == moved_grow(old(self).grow as nat),
            final(self).positions@ == moved_positions(
                old(self).positions@,
                old(self).grow as nat,
                old(self).direction,
                board.width as int,
                board.height as int,
            ),
            final(self).in_bounds(board.width as int, board.height as int),
            final(self).positions@.len() >= 2,
            final(self).positions@.len() + final(self).grow == old(self).positions@.len() + old(
                self,
            ).grow,
    {
        let tail_pos = self.positions[0];

        // While growing, the tail stays where it is for this tick.
        if self.grow > 0 {
            self.grow = self.grow - 1;
        } else {
            self.positions.pop_front();
        }

        let head = self.positions[self.positions.len() - 1];
        let new_head = advance(head, self.direction, board.width, board.height);
        self.positions.push_back(new_head);

        proof {
            assert(old(self).grow == 0 ==> self.positions@ =~= moved_positions(
                old(self).positions@,
                old(self).grow as nat,
                old(self).direction,
                board.width as int,
                board.height as int,
            ));
            lemma_length_accounting(
                old(self).positions@,
                old(self).grow as nat,
                old(self).direction,
                board.width as int,
                board.height as int,
            );
        }
        tail_pos
    }
}

} // verus!
