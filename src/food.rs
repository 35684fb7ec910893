//! Free cells of the playfield and the random choice among them.

use crate::grid::{in_grid, Pos, GRID_HEIGHT, GRID_WIDTH};
use rand::Rng;
use vstd::prelude::*;

verus! {

/// Number of cells on the playfield.
pub const CELL_COUNT: u64 = GRID_WIDTH * GRID_HEIGHT;

/// The `i`-th cell in row-major order.
pub open spec fn cell_at(i: int) -> Pos {
    Pos { x: (i % (GRID_WIDTH as int)) as u64, y: (i / (GRID_WIDTH as int)) as u64 }
}

/// The cells among the first `n` in row-major order that `occupied` does not
/// hold, in that order.
pub open spec fn free_cells_upto(occupied: Seq<Pos>, n: nat) -> Seq<Pos>
    decreases n,
{
    if n == 0 {
        Seq::empty()
    } else {
        let prev = free_cells_upto(occupied, (n - 1) as nat);
        let c = cell_at(n - 1);
        if occupied.contains(c) {
            prev
        } else {
            prev.push(c)
        }
    }
}

/// Every cell of the playfield that `occupied` does not hold, in row-major order.
pub open spec fn free_cells_of(occupied: Seq<Pos>) -> Seq<Pos> {
    free_cells_upto(occupied, CELL_COUNT as nat)
}

/// Every cell index below `CELL_COUNT` names a cell of the playfield.
proof fn lemma_cell_in_grid(i: int)
    requires
        0 <= i < CELL_COUNT,
    ensures
        in_grid(cell_at(i)),
{
    assert(i / 16 < 10) by (nonlinear_arith)
        requires
            0 <= i < 160,
    ;
}

/// A free cell is on the playfield and not occupied.
pub proof fn lemma_free_cells_are_free(occupied: Seq<Pos>, n: nat)
    requires
        n <= CELL_COUNT,
    ensures
        forall|i: int|
            0 <= i < free_cells_upto(occupied, n).len() ==> {
                let c = #[trigger] free_cells_upto(occupied, n)[i];
                !occupied.contains(c) && in_grid(c)
            },
    decreases n,
{
    if n > 0 {
        lemma_free_cells_are_free(occupied, (n - 1) as nat);
        lemma_cell_in_grid(n - 1);
        let prev = free_cells_upto(occupied, (n - 1) as nat);
        let cur = free_cells_upto(occupied, n);
        assert forall|i: int| 0 <= i < cur.len() implies !occupied.contains(
            #[trigger] cur[i],
        ) && in_grid(cur[i]) by {
            if i < prev.len() {
                assert(cur[i] == prev[i]);
            }
        }
    }
}

/// Whether `cells` holds `p`.
pub fn occupies(cells: &Vec<Pos>, p: Pos) -> (r: bool)
    ensures
        r == cells@.contains(p),
{
    let mut i: usize = 0;
    while i < cells.len()
        invariant
            i <= cells.len(),
            forall|j: int| 0 <= j < i ==> cells@[j] != p,
        decreases cells.len() - i,
    {
        if cells[i] == p {
            return true;
        }
        i = i + 1;
    }
    false
}

/// Lists the cells that `occupied` does not hold, in row-major order.
pub fn free_cells(occupied: &Vec<Pos>) -> (r: Vec<Pos>)
    ensures
        r@ == free_cells_of(occupied@),
        forall|i: int| 0 <= i < r@.len() ==> !occupied@.contains(#[trigger] r@[i]) && in_grid(r@[i]),
{
    let mut r: Vec<Pos> = Vec::new();
    let mut i: u64 = 0;
    while i < CELL_COUNT
        invariant
            i <= CELL_COUNT,
            r@ == free_cells_upto(occupied@, i as nat),
        decreases CELL_COUNT - i,
    {
        let c = Pos { x: i % GRID_WIDTH, y: i / GRID_WIDTH };
        if !occupies(occupied, c) {
            r.push(c);
        }
        i = i + 1;
    }
    proof {
        lemma_free_cells_are_free(occupied@, CELL_COUNT as nat);
    }
    r
}

/// Relies on rand's `thread_rng().gen_range(0..n)`: a value drawn from
/// `[0, n)`; the call panics on an empty range, hence `n > 0`.
#[verifier::external_body]
pub(crate) fn random_below(n: usize) -> (r: usize)
    requires
        n > 0,
    ensures
        r < n,
{
    rand::thread_rng().gen_range(0..n)
}

} // verus!
