//! Projection of the game onto axis-aligned rectangles, in pixels.

use crate::game::Game;
use crate::grid::{in_grid, Pos};
use vstd::prelude::*;

verus! {

/// Side of one cell, in pixels.
pub const CELL_SIZE: u64 = 80;

/// Gap between a cell's border and what is drawn in it, in pixels.
pub const EDGE_BUFFER: u64 = 8;

/// What a rectangle depicts, and so its colour.
#[derive(Clone, Copy, Debug, PartialEq, Eq, Structural)]
pub enum Fill {
    Snake,
    Food,
}

/// An axis-aligned rectangle: top-left corner, width and height, in pixels.
#[derive(Clone, Copy, Debug, PartialEq, Eq, Structural)]
pub struct Rect {
    pub x: u64,
    pub y: u64,
    pub w: u64,
    pub h: u64,
    pub fill: Fill,
}

/// The inset square drawn for one cell.
pub open spec fn cell_rect(p: Pos, fill: Fill) -> Rect {
    Rect {
        x: (p.x * CELL_SIZE + EDGE_BUFFER) as u64,
        y: (p.y * CELL_SIZE + EDGE_BUFFER) as u64,
        w: (CELL_SIZE - 2 * EDGE_BUFFER) as u64,
        h: (CELL_SIZE - 2 * EDGE_BUFFER) as u64,
        fill,
    }
}

/// The two cells differ by exactly one cell on exactly one axis.
pub open spec fn adjacent(a: Pos, b: Pos) -> bool {
    (a.x == b.x && (a.y + 1 == b.y || b.y + 1 == a.y)) || (a.y == b.y && (a.x + 1 == b.x || b.x
        + 1 == a.x))
}

/// The smaller of two coordinates.
pub open spec fn lo(a: u64, b: u64) -> u64 {
    if a <= b {
        a
    } else {
        b
    }
}

/// The inset rectangle spanning two adjacent cells, bridging the gap between them.
pub open spec fn connector_rect(a: Pos, b: Pos) -> Rect {
    let x0 = lo(a.x, b.x);
    let y0 = lo(a.y, b.y);
    let cols = if a.x == b.x { 1int } else { 2int };
    let rows = if a.y == b.y { 1int } else { 2int };
    Rect {
        x: (x0 * CELL_SIZE + EDGE_BUFFER) as u64,
        y: (y0 * CELL_SIZE + EDGE_BUFFER) as u64,
        w: (cols * CELL_SIZE - 2 * EDGE_BUFFER) as u64,
        h: (rows * CELL_SIZE - 2 * EDGE_BUFFER) as u64,
        fill: Fill::Snake,
    }
}

/// Connectors between the consecutive cells among the first `n` of `body`
/// that are adjacent, in order.
pub open spec fn connectors_upto(body: Seq<Pos>, n: nat) -> Seq<Rect>
    decreases n,
{
    if n < 2 {
        Seq::empty()
    } else {
        let prev = connectors_upto(body, (n - 1) as nat);
        let a = body[n - 2];
        let b = body[n - 1];
        if adjacent(a, b) {
            prev.push(connector_rect(a, b))
        } else {
            prev
        }
    }
}

/// The snake's cells, head first.
pub open spec fn body_of(g: &Game) -> Seq<Pos> {
    seq![g.head] + g.tail@
}

/// Everything drawn for `g`: one square per snake cell, the connectors, then the food.
pub open spec fn scene(g: &Game) -> Seq<Rect> {
    body_of(g).map_values(|p: Pos| cell_rect(p, Fill::Snake)) + connectors_upto(
        body_of(g),
        body_of(g).len(),
    ) + seq![cell_rect(g.food, Fill::Food)]
}

/// The inset square for one cell.
fn cell_square(p: Pos, fill: Fill) -> (r: Rect)
    requires
        in_grid(p),
    ensures
        r == cell_rect(p, fill),
{
    Rect {
        x: p.x * CELL_SIZE + EDGE_BUFFER,
        y: p.y * CELL_SIZE + EDGE_BUFFER,
        w: CELL_SIZE - 2 * EDGE_BUFFER,
        h: CELL_SIZE - 2 * EDGE_BUFFER,
        fill,
    }
}

/// The connector between two cells, or none where they are not adjacent.
pub fn connector(a: Pos, b: Pos) -> (r: Option<Rect>)
    requires
        in_grid(a),
        in_grid(b),
    ensures
        r == if adjacent(a, b) {
            Some(connector_rect(a, b))
        } else {
            None
        },
{
    let same_x = a.x == b.x;
    let same_y = a.y == b.y;
    let near_x = a.x + 1 == b.x || b.x + 1 == a.x;
    let near_y = a.y + 1 == b.y || b.y + 1 == a.y;
    if !((same_x && near_y) || (same_y && near_x)) {
        return None;
    }
    let x0 = if a.x <= b.x { a.x } else { b.x };
    let y0 = if a.y <= b.y { a.y } else { b.y };
    let cols: u64 = if same_x { 1 } else { 2 };
    let rows: u64 = if same_y { 1 } else { 2 };
    Some(Rect {
        x: x0 * CELL_SIZE + EDGE_BUFFER,
        y: y0 * CELL_SIZE + EDGE_BUFFER,
        w: cols * CELL_SIZE - 2 * EDGE_BUFFER,
        h: rows * CELL_SIZE - 2 * EDGE_BUFFER,
        fill: Fill::Snake,
    })
}

impl Game {
    /// The snake's cells, head first.
    pub fn body(&self) -> (r: Vec<Pos>)
        ensures
            r@ == body_of(self),
    {
        let mut r: Vec<Pos> = Vec::new();
        r.push(self.head);
        let mut i: usize = 0;
        while i < self.tail.len()
            invariant
                i <= self.tail@.len(),
                r@ == seq![self.head] + self.tail@.subrange(0, i as int),
            decreases self.tail@.len() - i,
        {
            r.push(self.tail[i]);
            i = i + 1;
            assert(r@ =~= seq![self.head] + self.tail@.subrange(0, i as int));
        }
        assert(self.tail@.subrange(0, i as int) =~= self.tail@);
        r
    }

    /// The rectangles to draw for the current state; nothing changes.
    pub fn render(&self) -> (r: Vec<Rect>)
        requires
            self.wf(),
        ensures
            r@ == scene(self),
    {
        let body = self.body();
        let ghost cells = body@.map_values(|p: Pos| cell_rect(p, Fill::Snake));
        assert forall|j: int| 0 <= j < body@.len() implies in_grid(#[trigger] body@[j]) by {
            if j > 0 {
                assert(body@[j] == self.tail@[j - 1]);
            }
        }
        let mut r: Vec<Rect> = Vec::new();
        let mut i: usize = 0;
        while i < body.len()
            invariant
                i <= body@.len(),
                forall|j: int| 0 <= j < body@.len() ==> in_grid(#[trigger] body@[j]),
                cells == body@.map_values(|p: Pos| cell_rect(p, Fill::Snake)),
                r@ == cells.subrange(0, i as int),
            decreases body@.len() - i,
        {
            r.push(cell_square(body[i], Fill::Snake));
            i = i + 1;
            assert(r@ =~= cells.subrange(0, i as int));
        }
        assert(cells.subrange(0, i as int) =~= cells);
        let mut k: usize = 1;
        while k < body.len()
            invariant
                1 <= k <= body@.len(),
                forall|j: int| 0 <= j < body@.len() ==> in_grid(#[trigger] body@[j]),
                r@ == cells + connectors_upto(body@, k as nat),
            decreases body@.len() - k,
        {
            match connector(body[k - 1], body[k]) {
                Some(c) => r.push(c),
                None => {},
            }
            k = k + 1;
            assert(r@ =~= cells + connectors_upto(body@, k as nat));
        }
        r.push(cell_square(self.food, Fill::Food));
        r
    }
}

} // verus!
