use crate::direction::{dx, dy, Direction};
use rand::Rng;
use vstd::prelude::*;

verus! {

/// Side of one grid cell, in pixels.
pub const CELL: u32 = 20;

/// A point in pixels; the y axis points up.
#[derive(Clone, Copy, Debug, PartialEq, Eq, Structural)]
pub struct Position {
    pub x: i64,
    pub y: i64,
}

/// The point as a pair of mathematical integers.
pub open spec fn at(p: Position) -> (int, int) {
    (p.x as int, p.y as int)
}

/// Where one move in direction `d` leads from `p`.
pub open spec fn step_from(p: (int, int), d: Direction) -> (int, int) {
    (p.0 + dx(d), p.1 + dy(d))
}

/// One move from `p` in direction `d` stays within `i64`.
pub open spec fn can_step(p: Position, d: Direction) -> bool {
    i64::MIN <= p.x + dx(d) <= i64::MAX && i64::MIN <= p.y + dy(d) <= i64::MAX
}

/// `p` lies on a cell of a `width` × `height` window: inside it and on a
/// multiple of the cell size in both axes.
pub open spec fn on_board(p: Position, width: int, height: int) -> bool {
    0 <= p.x < width && 0 <= p.y < height && (p.x as int) % (CELL as int) == 0 && (p.y as int) % (CELL as int) == 0
}

impl Position {
    pub fn new(x: i64, y: i64) -> (p: Position)
        ensures
            p.x == x && p.y == y,
    {
        Position { x, y }
    }

    /// The corner of the cell in column `col` and row `row`.
    pub fn of_cell(col: u32, row: u32) -> (p: Position)
        ensures
            p.x == CELL * col,
            p.y == CELL * row,
    {
        Position { x: CELL as i64 * col as i64, y: CELL as i64 * row as i64 }
    }

    /// Whether one move in direction `d` stays within `i64`.
    pub fn can_step(self, d: Direction) -> (r: bool)
        ensures
            r == can_step(self, d),
    {
        match d {
            Direction::NONE => true,
            Direction::UP => self.y <= i64::MAX - 20,
            Direction::DOWN => self.y >= i64::MIN + 20,
            Direction::LEFT => self.x >= i64::MIN + 20,
            Direction::RIGHT => self.x <= i64::MAX - 20,
        }
    }

    /// The position one cell further in direction `d`.
    pub fn step(self, d: Direction) -> (r: Position)
        requires
            can_step(self, d),
        ensures
            at(r) == step_from(at(self), d),
    {
        match d {
            Direction::NONE => self,
            Direction::UP => Position { x: self.x, y: self.y + 20 },
            Direction::DOWN => Position { x: self.x, y: self.y - 20 },
            Direction::LEFT => Position { x: self.x - 20, y: self.y },
            Direction::RIGHT => Position { x: self.x + 20, y: self.y },
        }
    }
}

/// Relies on rand::thread_rng and Rng::gen_range: a value drawn from the
/// range `0..n`, which must not be empty (gen_range panics on an empty range).
#[verifier::external_body]
fn random_below(n: u32) -> (r: u32)
    requires
        n > 0,
    ensures
        r < n,
{
    rand::thread_rng().gen_range(0..n)
}

/// Number of whole cells along a window side of `pixels`.
pub fn cells_across(pixels: u32) -> (n: u32)
    ensures
        n == pixels / CELL,
{
    pixels / CELL
}

/// A cell of the `width` × `height` window, drawn at random.
pub fn random_food_position(width: u32, height: u32) -> (p: Position)
    requires
        width >= CELL,
        height >= CELL,
    ensures
        on_board(p, width as int, height as int),
{
    let cols = cells_across(width);
    let rows = cells_across(height);
    let col = random_below(cols);
    let row = random_below(rows);
    proof {
        lemma_cell_inside(col as int, cols as int, width as int);
        lemma_cell_inside(row as int, rows as int, height as int);
    }
    Position::of_cell(col, row)
}

/// The corner of a cell with index below `pixels / CELL` lies inside the
/// window side, on a cell boundary.
pub proof fn lemma_cell_inside(i: int, n: int, pixels: int)
    requires
        0 <= i < n,
        n == pixels / (CELL as int),
        pixels >= 0,
    ensures
        0 <= (CELL as int) * i < pixels,
        ((CELL as int) * i) % (CELL as int) == 0,
{
    assert(20 * i < pixels) by (nonlinear_arith)
        requires
            0 <= i < n,
            n == pixels / 20,
            pixels >= 0,
    ;
    assert((20 * i) % 20 == 0) by (nonlinear_arith)
        requires
            0 <= i,
    ;
}

} // verus!
