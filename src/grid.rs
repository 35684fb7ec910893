//! The playfield: cells, directions and toroidal movement.

use vstd::arithmetic::div_mod::lemma_fundamental_div_mod_converse;
use vstd::prelude::*;

verus! {

/// Number of cells along the x axis.
pub const GRID_WIDTH: u64 = 16;

/// Number of cells along the y axis.
pub const GRID_HEIGHT: u64 = 10;

/// A cell of the playfield; `y` grows downwards.
#[derive(Clone, Copy, Debug, PartialEq, Eq, Structural)]
pub struct Pos {
    pub x: u64,
    pub y: u64,
}

/// A heading; `Still` does not move.
#[derive(Clone, Copy, Debug, PartialEq, Eq, Structural)]
pub enum Direction {
    North,
    South,
    East,
    West,
    Still,
}

/// The cell lies on the playfield.
pub open spec fn in_grid(p: Pos) -> bool {
    p.x < GRID_WIDTH && p.y < GRID_HEIGHT
}

/// Horizontal displacement of a direction.
pub open spec fn dx(d: Direction) -> int {
    match d {
        Direction::East => 1,
        Direction::West => -1,
        _ => 0,
    }
}

/// Vertical displacement of a direction (North is up, towards y = 0).
pub open spec fn dy(d: Direction) -> int {
    match d {
        Direction::South => 1,
        Direction::North => -1,
        _ => 0,
    }
}

/// `b` is the exact reverse of `a`.
pub open spec fn is_reverse(a: Direction, b: Direction) -> bool {
    (a == Direction::East && b == Direction::West) || (a == Direction::West && b
        == Direction::East) || (a == Direction::North && b == Direction::South) || (a
        == Direction::South && b == Direction::North)
}

/// The direction adopted when `pending` is requested while moving `current`.
pub open spec fn arbitrated(current: Direction, pending: Direction) -> Direction {
    if is_reverse(current, pending) {
        current
    } else {
        pending
    }
}

/// The cell one step from `p` along `d`, wrapped on both axes.
pub open spec fn moved(p: Pos, d: Direction) -> Pos {
    Pos {
        x: ((p.x + dx(d)) % (GRID_WIDTH as int)) as u64,
        y: ((p.y + dy(d)) % (GRID_HEIGHT as int)) as u64,
    }
}

/// Whether `b` reverses `a`.
pub fn reverses(a: Direction, b: Direction) -> (r: bool)
    ensures
        r == is_reverse(a, b),
{
    match (a, b) {
        (Direction::East, Direction::West) => true,
        (Direction::West, Direction::East) => true,
        (Direction::North, Direction::South) => true,
        (Direction::South, Direction::North) => true,
        _ => false,
    }
}

/// Direction arbitration: a reversal is discarded, anything else is adopted.
pub fn arbitrate(current: Direction, pending: Direction) -> (r: Direction)
    ensures
        r == arbitrated(current, pending),
{
    if reverses(current, pending) {
        current
    } else {
        pending
    }
}

/// Wraps `c + delta` into `[0, n)`, where `delta` is -1, 0 or 1.
fn wrap_coord(c: u64, delta: i8, n: u64) -> (r: u64)
    requires
        c < n,
        -1 <= delta <= 1,
    ensures
        r as int == (c + delta) % (n as int),
        r < n,
{
    let ghost target: int = c + delta;
    if delta > 0 {
        if c + 1 == n {
            proof {
                lemma_fundamental_div_mod_converse(target, n as int, 1, 0);
            }
            0
        } else {
            proof {
                lemma_fundamental_div_mod_converse(target, n as int, 0, target);
            }
            c + 1
        }
    } else if delta < 0 {
        if c == 0 {
            proof {
                lemma_fundamental_div_mod_converse(target, n as int, -1, n - 1);
            }
            n - 1
        } else {
            proof {
                lemma_fundamental_div_mod_converse(target, n as int, 0, target);
            }
            c - 1
        }
    } else {
        proof {
            lemma_fundamental_div_mod_converse(target, n as int, 0, target);
        }
        c
    }
}

/// The cell one step from `p` along `d`, leaving one edge to re-enter at the opposite one.
pub fn step_pos(p: Pos, d: Direction) -> (r: Pos)
    requires
        in_grid(p),
    ensures
        r == moved(p, d),
        in_grid(r),
{
    let (ddx, ddy): (i8, i8) = match d {
        Direction::North => (0, -1),
        Direction::South => (0, 1),
        Direction::East => (1, 0),
        Direction::West => (-1, 0),
        Direction::Still => (0, 0),
    };
    Pos { x: wrap_coord(p.x, ddx, GRID_WIDTH), y: wrap_coord(p.y, ddy, GRID_HEIGHT) }
}

} // verus!
