//! The game state: board, snake and fruit cell, with the per-tick
//! transition, the fruit spawner and the input-to-heading mapping.

use vstd::prelude::*;

use crate::board::Board;
use crate::board::Symbol;
use crate::geometry::Coord;
use crate::geometry::Direction;
use crate::snake::Snake;
use crate::snake::contains_coord;
use crate::snake::moved_grow;
use crate::snake::moved_positions;

verus! {

/// A recognized input action, as the input collaborator decodes it.
/// Anything the collaborator cannot decode is dropped before it gets here.
#[derive(Clone, Copy, PartialEq, Eq, Structural, Debug)]
pub enum InputEvent {
    MoveUp,
    MoveDown,
    MoveLeft,
    MoveRight,
    Quit,
}

/// What the orchestrating loop should do after an input was applied.
#[derive(Clone, Copy, PartialEq, Eq, Structural, Debug)]
pub enum Signal {
    Continue,
    Quit,
}

/// Relies on rand::Rng::gen_range over rand::thread_rng: sampling the
/// range `0..n` returns a value of that range, and panics only when the
/// range is empty, which the precondition rules out.
#[verifier::external_body]
fn random_below(n: usize) -> (r: usize)
    requires
        0 < n,
    ensures
        r < n,
{
    rand::Rng::gen_range(&mut rand::thread_rng(), 0..n)
}

/// The whole game: the rendered board, the snake and the fruit cell.
#[derive(Debug)]
pub struct Game {
    pub board: Board,
    pub snake: Snake,
    pub fruit_position: Coord,
}

impl Game {
    /// Everything agrees: the board is well-formed, the snake lies on the
    /// board with at least its two starting cells, and the fruit is on the
    /// board.
    pub open spec fn wf(self) -> bool {
        &&& self.board.wf()
        &&& self.snake.positions@.len() >= 2
        &&& self.snake.in_bounds(self.board.width as int, self.board.height as int)
        &&& self.board.in_range(self.fruit_position)
    }

    /// The board shows exactly the game state: the fruit cell first, the
    /// snake body second, background everywhere else.
    pub open spec fn projects(self) -> bool {
        forall|c: Coord|
            self.board.in_range(c) ==> self.board.cell(c) == (if c == self.fruit_position {
                Symbol::Fruit
            } else if self.snake.positions@.contains(c) {
                Symbol::Body
            } else {
                Symbol::Background
            })
    }

    /// Draw a fresh fruit cell uniformly at random on the board. Nothing
    /// else changes; the draw is not resampled when it lands under the
    /// snake.
    pub fn new_fruit_position(&mut self)
        requires
            old(self).board.wf(),
        ensures
            final(self).board == old(self).board,
            final(self).snake == old(self).snake,
            final(self).board.in_range(final(self).fruit_position),
    {
        let x = random_below(self.board.width);
        let y = random_below(self.board.height);
        self.fruit_position = Coord { x, y };
    }

    /// One fruit check: when the body now covers the fruit cell, a unit of
    /// growth is deferred and the fruit moves to a fresh random cell;
    /// otherwise nothing changes.
    pub fn check_fruit(&mut self)
        requires
            old(self).board.wf(),
            old(self).snake.grow < usize::MAX,
        ensures
            final(self).board == old(self).board,
            final(self).snake.positions@ == old(self).snake.positions@,
            final(self).snake.direction == old(self).snake.direction,
            old(self).snake.positions@.contains(old(self).fruit_position) ==> {
                &&& final(self).snake.grow == old(self).snake.grow + 1
                &&& final(self).board.in_range(final(self).fruit_position)
            },
            !old(self).snake.positions@.contains(old(self).fruit_position) ==> *final(self) == *old(self),
    {
        if contains_coord(&self.snake.positions, self.fruit_position) {
            self.new_fruit_position();
            self.snake.grow();
        }
    }

    /// One simulation tick: move the snake, redraw the body over the erased
    /// tail cell, resolve a fruit collision against the whole body, and
    /// draw the (possibly fresh) fruit cell last.
    pub fn step(&mut self)
        requires
            old(self).wf(),
            old(self).snake.grow < usize::MAX,
        ensures
            final(self).wf(),
            final(self).board.height == old(self).board.height,
            final(self).board.width == old(self).board.width,
            final(self).snake.direction == old(self).snake.direction,
            final(self).snake.positions@ == moved_positions(
                old(self).snake.positions@,
                old(self).snake.grow as nat,
                old(self).snake.direction,
                old(self).board.width as int,
                old(self).board.height as int,
            ),
            ({
                let collided = final(self).snake.positions@.contains(old(self).fruit_position);
                &&& !collided ==> final(self).fruit_position == old(self).fruit_position
                    && final(self).snake.grow == moved_grow(old(self).snake.grow as nat)
                &&& collided ==> final(self).snake.grow == moved_grow(old(self).snake.grow as nat)
                    + 1
                &&& final(self).snake.positions@.len() + final(self).snake.grow == old(self).snake.positions@.len() + old(self).snake.grow + (if collided {
                    1int
                } else {
                    0int
                })
            }),
            forall|c: Coord|
                final(self).board.in_range(c) ==> final(self).board.cell(c) == (if c == final(self).fruit_position {
                    Symbol::Fruit
                } else if final(self).snake.positions@.contains(c) {
                    Symbol::Body
                } else if c == old(self).snake.positions@[0] {
                    Symbol::Background
                } else {
                    old(self).board.cell(c)
                }),
            old(self).projects() ==> final(self).projects(),
    {
        let ghost prior = *self;
        let old_pos = self.snake.move_position(&self.board);
        self.board.draw_snake(&self.snake, old_pos);
        self.check_fruit();
        self.board.draw_fruit(self.fruit_position);
        proof {
            broadcast use vstd::seq_lib::lemma_seq_contains_after_push;

            if prior.projects() {
                assert forall|c: Coord| self.board.in_range(c) implies self.board.cell(c) == (
                if c == self.fruit_position {
                    Symbol::Fruit
                } else if self.snake.positions@.contains(c) {
                    Symbol::Body
                } else {
                    Symbol::Background
                }) by {
                    if c != self.fruit_position && !self.snake.positions@.contains(c) {
                        // The cell kept its old symbol; show the old state showed
                        // background there: `c` is neither the old fruit nor on
                        // the old body.
                        if prior.snake.grow > 0 {
                        } else {
                            if prior.snake.positions@.contains(c) {
                                let k = choose|k: int|
                                    0 <= k < prior.snake.positions@.len() && prior.snake.positions@[k]
                                        == c;
                                assert(k > 0 ==> prior.snake.positions@.drop_first()[k - 1] == c);
                            }
                        }
                    }
                }
            }
        }
    }

    /// First draw of a game: place the fruit at random and draw it, then
    /// draw the snake. The snake is drawn second, so it covers an
    /// overlapping fruit cell; the erase pass of the snake draw blanks the
    /// origin cell when the snake does not cover it.
    pub fn init(&mut self)
        requires
            old(self).board.wf(),
            old(self).snake.positions@.len() >= 2,
            old(self).snake.in_bounds(old(self).board.width as int, old(self).board.height as int),
        ensures
            final(self).wf(),
            final(self).board.height == old(self).board.height,
            final(self).board.width == old(self).board.width,
            final(self).snake == old(self).snake,
            forall|c: Coord|
                final(self).board.in_range(c) ==> final(self).board.cell(c) == (if final(self).snake.positions@.contains(c) {
                    Symbol::Body
                } else if c == (Coord { x: 0, y: 0 }) {
                    Symbol::Background
                } else if c == final(self).fruit_position {
                    Symbol::Fruit
                } else {
                    old(self).board.cell(c)
                }),
            ({
                &&& forall|c: Coord|
                    old(self).board.in_range(c) ==> old(self).board.cell(c) == Symbol::Background
                &&& !final(self).snake.positions@.contains(final(self).fruit_position)
                &&& final(self).fruit_position != (Coord { x: 0, y: 0 })
            }) ==> final(self).projects(),
    {
        self.new_fruit_position();
        self.board.draw_fruit(self.fruit_position);
        self.board.draw_snake(&self.snake, Coord { x: 0, y: 0 });
    }

    /// Apply one decoded input: the four move actions set the heading
    /// unconditionally, a direct reversal included; the quit action changes
    /// nothing and tells the orchestrating loop to stop before any further
    /// tick.
    pub fn keyboard_action(&mut self, event: InputEvent) -> (r: Signal)
        ensures
            final(self).board == old(self).board,
            final(self).fruit_position == old(self).fruit_position,
            final(self).snake.positions@ == old(self).snake.positions@,
            final(self).snake.grow == old(self).snake.grow,
            r == (if event == InputEvent::Quit {
                Signal::Quit
            } else {
                Signal::Continue
            }),
            final(self).snake.direction == (match event {
                InputEvent::MoveUp => Direction::Up,
                InputEvent::MoveDown => Direction::Down,
                InputEvent::MoveLeft => Direction::Left,
                InputEvent::MoveRight => Direction::Right,
                InputEvent::Quit => old(self).snake.direction,
            }),
    {
        match event {
            InputEvent::MoveUp => {
                self.snake.direction = Direction::Up;
                Signal::Continue
            },
            InputEvent::MoveDown => {
                self.snake.direction = Direction::Down;
                Signal::Continue
            },
            InputEvent::MoveLeft => {
                self.snake.direction = Direction::Left;
                Signal::Continue
            },
            InputEvent::MoveRight => {
                self.snake.direction = Direction::Right;
                Signal::Continue
            },
            InputEvent::Quit => Signal::Quit,
        }
    }
}

} // verus!
