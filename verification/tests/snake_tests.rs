use std::collections::VecDeque;

use snake::board::Board;
use snake::geometry::Coord;
use snake::geometry::Direction;
use snake::snake::Snake;
use snake::snake::SnakeError;

fn coord(x: usize, y: usize) -> Coord {
    Coord { x, y }
}

fn body(s: &Snake) -> Vec<Coord> {
    s.positions.iter().copied().collect()
}

fn runner(direction: Direction, cells: Vec<Coord>) -> Snake {
    Snake { direction, positions: VecDeque::from(cells), grow: 0 }
}

#[test]
fn board_too_small_rejected() {
    let b = Board::new(1, 5).unwrap();
    assert_eq!(Snake::new(&b).unwrap_err(), SnakeError::BoardTooSmall);
}

#[test]
fn new_snake_is_centered() {
    let b = Board::new(20, 20).unwrap();
    let s = Snake::new(&b).unwrap();
    assert_eq!(body(&s), vec![coord(10, 10), coord(10, 9)]);
    assert_eq!(s.direction, Direction::Down);
    assert_eq!(s.grow, 0);
}

#[test]
fn first_tick_on_small_board() {
    // Board 4x4, initial cells {(2,2),(2,1)}, heading down, no growth:
    // the erased tail is (2,2) and the body becomes {(2,1),(2,2)}.
    let b = Board::new(4, 4).unwrap();
    let mut s = Snake::new(&b).unwrap();
    assert_eq!(body(&s), vec![coord(2, 2), coord(2, 1)]);
    let erased = s.move_position(&b);
    assert_eq!(erased, coord(2, 2));
    assert_eq!(body(&s), vec![coord(2, 1), coord(2, 2)]);
}

#[test]
fn wrap_left() {
    let b = Board::new(3, 3).unwrap();
    let mut s = runner(Direction::Left, vec![coord(1, 0), coord(0, 0)]);
    s.move_position(&b);
    assert_eq!(body(&s), vec![coord(0, 0), coord(2, 0)]);
}

#[test]
fn wrap_right() {
    let b = Board::new(3, 3).unwrap();
    let mut s = runner(Direction::Right, vec![coord(1, 1), coord(2, 1)]);
    s.move_position(&b);
    assert_eq!(body(&s), vec![coord(2, 1), coord(0, 1)]);
}

#[test]
fn wrap_up() {
    let b = Board::new(3, 3).unwrap();
    let mut s = runner(Direction::Up, vec![coord(2, 1), coord(2, 0)]);
    s.move_position(&b);
    assert_eq!(body(&s), vec![coord(2, 0), coord(2, 2)]);
}

#[test]
fn wrap_down() {
    let b = Board::new(3, 3).unwrap();
    let mut s = runner(Direction::Down, vec![coord(0, 1), coord(0, 2)]);
    s.move_position(&b);
    assert_eq!(body(&s), vec![coord(0, 2), coord(0, 0)]);
}

#[test]
fn length_constant_without_growth() {
    let b = Board::new(5, 5).unwrap();
    let mut s = Snake::new(&b).unwrap();
    for _ in 0..25 {
        s.move_position(&b);
        assert_eq!(s.positions.len(), 2);
    }
}

#[test]
fn growth_retains_tail() {
    let b = Board::new(5, 5).unwrap();
    let mut s = runner(Direction::Down, vec![coord(2, 1), coord(2, 2)]);
    s.grow();
    assert_eq!(s.grow, 1);
    assert_eq!(s.positions.len(), 2);
    let erased = s.move_position(&b);
    // Growth pending: the tail stays, the counter is consumed.
    assert_eq!(erased, coord(2, 1));
    assert_eq!(body(&s), vec![coord(2, 1), coord(2, 2), coord(2, 3)]);
    assert_eq!(s.grow, 0);
    s.move_position(&b);
    // No growth pending any more: length stays at three.
    assert_eq!(body(&s), vec![coord(2, 2), coord(2, 3), coord(2, 4)]);
}

#[test]
fn reversal_is_allowed() {
    let b = Board::new(5, 5).unwrap();
    let mut s = runner(Direction::Down, vec![coord(2, 1), coord(2, 2)]);
    s.move_position(&b);
    s.direction = Direction::Up;
    s.move_position(&b);
    // The head walks straight back over the body; no self-collision rule.
    assert_eq!(body(&s), vec![coord(2, 3), coord(2, 2)]);
}
