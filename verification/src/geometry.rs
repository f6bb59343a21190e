//! Coordinates and headings on a toroidal grid.

use vstd::prelude::*;

verus! {

/// A cell position on the grid: `0 <= x < width`, `0 <= y < height`.
#[derive(Clone, Copy, PartialEq, Eq, Structural, Debug)]
pub struct Coord {
    pub x: usize,
    pub y: usize,
}

/// The snake's heading. Input may set any heading at any time, a direct
/// reversal included.
#[derive(Clone, Copy, PartialEq, Eq, Structural, Debug)]
pub enum Direction {
    Up,
    Down,
    Left,
    Right,
}

/// Where one step in direction `d` leads from `c` on a `width x height`
/// torus: decrementing past `0` wraps to the far edge, and incrementing
/// past the far edge wraps to `0`.
pub open spec fn step_coord(c: Coord, d: Direction, width: int, height: int) -> Coord {
    match d {
        Direction::Up => Coord {
            x: c.x,
            y: if c.y == 0 { (height - 1) as usize } else { (c.y - 1) as usize },
        },
        Direction::Down => Coord {
            x: c.x,
            y: if c.y + 1 >= height { 0 } else { (c.y + 1) as usize },
        },
        Direction::Left => Coord {
            x: if c.x == 0 { (width - 1) as usize } else { (c.x - 1) as usize },
            y: c.y,
        },
        Direction::Right => Coord {
            x: if c.x + 1 >= width { 0 } else { (c.x + 1) as usize },
            y: c.y,
        },
    }
}

/// Advance `c` one step in direction `d`, wrapping around the grid edges.
pub fn advance(c: Coord, d: Direction, width: usize, height: usize) -> (r: Coord)
    requires
        0 < width,
        0 < height,
        c.x < width,
        c.y < height,
    ensures
        r == step_coord(c, d, width as int, height as int),
        r.x < width,
        r.y < height,
{
    match d {
        Direction::Up => Coord { x: c.x, y: if c.y == 0 { height - 1 } else { c.y - 1 } },
        Direction::Down => Coord { x: c.x, y: if c.y + 1 >= height { 0 } else { c.y + 1 } },
        Direction::Left => Coord { x: if c.x == 0 { width - 1 } else { c.x - 1 }, y: c.y },
        Direction::Right => Coord { x: if c.x + 1 >= width { 0 } else { c.x + 1 }, y: c.y },
    }
}

/// Law: toroidal movement. One step from an in-range coordinate lands in
/// range again, and a step off an edge lands on the opposite edge.
pub proof fn lemma_wrap_around(c: Coord, d: Direction, width: int, height: int)
    requires
        0 < width <= usize::MAX,
        0 < height <= usize::MAX,
        c.x < width,
        c.y < height,
    ensures
        step_coord(c, d, width, height).x < width,
        step_coord(c, d, width, height).y < height,
        d == Direction::Left && c.x == 0 ==> step_coord(c, d, width, height).x == width - 1,
        d == Direction::Right && c.x == width - 1 ==> step_coord(c, d, width, height).x == 0,
        d == Direction::Up && c.y == 0 ==> step_coord(c, d, width, height).y == height - 1,
        d == Direction::Down && c.y == height - 1 ==> step_coord(c, d, width, height).y == 0,
{
}

} // verus!
