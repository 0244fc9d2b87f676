//! Cubic sampling grids: their cells, the order in which they are visited,
//! and the selection of the cells that lie near a surface.

use vstd::prelude::*;

verus! {

/// A cell of a cubic grid, given by its integer coordinate along each axis.
#[derive(Clone, Copy, Debug, PartialEq, Eq, Structural)]
pub struct GridCell {
    pub x: usize,
    pub y: usize,
    pub z: usize,
}

/// Why a grid cannot be laid out.
#[derive(Clone, Copy, Debug, PartialEq, Eq, Structural)]
pub enum GridError {
    /// A grid needs at least one cell along each axis.
    ZeroResolution,
    /// `resolution³` cells cannot be counted in a `usize`.
    TooManyCells,
}

/// Number of cells of a grid with `resolution` cells along each axis.
pub open spec fn cell_total(resolution: nat) -> nat {
    resolution * resolution * resolution
}

/// Position of `cell` in the visiting order: x outermost, then y, z innermost.
pub open spec fn cell_position(resolution: nat, cell: GridCell) -> int {
    (cell.x * resolution + cell.y) * resolution + cell.z
}

/// The cell visited at position `i`.
pub open spec fn cell_at(resolution: nat, i: int) -> GridCell {
    GridCell {
        x: (i / (resolution * resolution) as int) as usize,
        y: ((i / resolution as int) % resolution as int) as usize,
        z: (i % resolution as int) as usize,
    }
}

/// Every cell of the grid, in visiting order.
pub open spec fn grid_order(resolution: nat) -> Seq<GridCell> {
    Seq::new(cell_total(resolution), |i: int| cell_at(resolution, i))
}

/// A cell lies inside a grid of the given resolution.
pub open spec fn cell_in_grid(resolution: nat, cell: GridCell) -> bool {
    cell.x < resolution && cell.y < resolution && cell.z < resolution
}

/// The items among the first `n` whose flag is set, in their order.
pub open spec fn selected_prefix<T>(items: Seq<T>, keep: Seq<bool>, n: nat) -> Seq<T>
    decreases n,
{
    if n == 0 {
        Seq::empty()
    } else {
        let rest = selected_prefix(items, keep, (n - 1) as nat);
        if keep[n - 1] {
            rest.push(items[n - 1])
        } else {
            rest
        }
    }
}

/// The items whose flag is set, in their order.
pub open spec fn selected<T>(items: Seq<T>, keep: Seq<bool>) -> Seq<T> {
    selected_prefix(items, keep, items.len())
}

/// The byte stored for one cell of an occupancy texture.
pub open spec fn occupancy_byte(near: bool) -> u8 {
    if near {
        1
    } else {
        0
    }
}

/// Visiting a cell and reading back its position are inverse to each other.
pub proof fn lemma_cell_position(resolution: nat, cell: GridCell)
    requires
        cell_in_grid(resolution, cell),
    ensures
        0 <= cell_position(resolution, cell) < cell_total(resolution),
        cell_at(resolution, cell_position(resolution, cell)) == cell,
{
    let r = resolution as int;
    let (x, y, z) = (cell.x as int, cell.y as int, cell.z as int);
    let row = x * r + y;
    let k = row * r + z;
    assert(0 <= row < r * r) by (nonlinear_arith)
        requires
            0 <= x < r,
            0 <= y < r,
            row == x * r + y,
    ;
    assert(0 <= k < r * r * r) by (nonlinear_arith)
        requires
            0 <= row < r * r,
            0 <= z < r,
            k == row * r + z,
    ;
    vstd::arithmetic::div_mod::lemma_fundamental_div_mod_converse(k, r, row, z);
    vstd::arithmetic::div_mod::lemma_fundamental_div_mod_converse(row, r, x, y);
    vstd::arithmetic::div_mod::lemma_div_denominator(k, r, r);
}

/// Every cell visited by the grid lies inside it.
pub proof fn lemma_grid_order_in_grid(resolution: nat, i: int)
    requires
        0 <= i < cell_total(resolution),
    ensures
        cell_in_grid(resolution, grid_order(resolution)[i]),
{
    let r = resolution as int;
    assert(r > 0) by (nonlinear_arith)
        requires
            0 <= i < r * r * r,
            r >= 0,
    ;
    assert(r * r > 0) by (nonlinear_arith)
        requires
            r > 0,
    ;
    vstd::arithmetic::div_mod::lemma_div_pos_is_pos(i, r * r);
    vstd::arithmetic::div_mod::lemma_multiply_divide_lt(i, r * r, r);
    vstd::arithmetic::div_mod::lemma_div_pos_is_pos(i, r);
    vstd::arithmetic::div_mod::lemma_mod_pos_bound(i / r, r);
    vstd::arithmetic::div_mod::lemma_mod_pos_bound(i, r);
}

/// A selection from the grid's cells holds only cells of the grid.
pub proof fn lemma_selected_in_grid(resolution: nat, keep: Seq<bool>, n: nat)
    requires
        n <= cell_total(resolution),
        keep.len() == cell_total(resolution),
    ensures
        forall|i: int|
            0 <= i < selected_prefix(grid_order(resolution), keep, n).len() ==> cell_in_grid(
                resolution,
                #[trigger] selected_prefix(grid_order(resolution), keep, n)[i],
            ),
    decreases n,
{
    if n > 0 {
        let rest = selected_prefix(grid_order(resolution), keep, (n - 1) as nat);
        let all = selected_prefix(grid_order(resolution), keep, n);
        lemma_selected_in_grid(resolution, keep, (n - 1) as nat);
        lemma_grid_order_in_grid(resolution, n - 1);
        assert forall|i: int| 0 <= i < all.len() implies cell_in_grid(
            resolution,
            #[trigger] all[i],
        ) by {
            if i < rest.len() {
                assert(all[i] == rest[i]);
            }
        }
    }
}

/// Every cell of a grid of side `resolution`, in visiting order (x outermost,
/// then y, z innermost).
pub fn grid_cells(resolution: usize) -> (r: Result<Vec<GridCell>, GridError>)
    ensures
        resolution == 0 ==> r == Err::<Vec<GridCell>, GridError>(GridError::ZeroResolution),
        resolution > 0 && cell_total(resolution as nat) > usize::MAX ==> r == Err::<
            Vec<GridCell>,
            GridError,
        >(GridError::TooManyCells),
        resolution > 0 && cell_total(resolution as nat) <= usize::MAX ==> r is Ok && r->Ok_0@
            == grid_order(resolution as nat),
{
    if resolution == 0 {
        return Err(GridError::ZeroResolution);
    }
    let total = match resolution.checked_mul(resolution) {
        Some(square) => square.checked_mul(resolution),
        None => None,
    };
    if total.is_none() {
        proof {
            let r = resolution as int;
            if r * r <= usize::MAX {
                assert(r * r * r > usize::MAX);
            } else {
                assert(r * r * r >= r * r) by (nonlinear_arith)
                    requires
                        r >= 1,
                ;
            }
        }
        return Err(GridError::TooManyCells);
    }
    let ghost res = resolution as nat;
    let mut cells: Vec<GridCell> = Vec::new();
    let mut x: usize = 0;
    while x < resolution
        invariant
            res == resolution,
            resolution > 0,
            cell_total(res) <= usize::MAX,
            x <= resolution,
            cells@.len() == x * res * res,
            forall|i: int| 0 <= i < cells@.len() ==> #[trigger] cells@[i] == cell_at(res, i),
        decreases resolution - x,
    {
        let mut y: usize = 0;
        while y < resolution
            invariant
                res == resolution,
                resolution > 0,
                cell_total(res) <= usize::MAX,
                x < resolution,
                y <= resolution,
                cells@.len() == (x * res + y) * res,
                forall|i: int| 0 <= i < cells@.len() ==> #[trigger] cells@[i] == cell_at(res, i),
            decreases resolution - y,
        {
            let mut z: usize = 0;
            while z < resolution
                invariant
                    res == resolution,
                    resolution > 0,
                    cell_total(res) <= usize::MAX,
                    x < resolution,
                    y < resolution,
                    z <= resolution,
                    cells@.len() == (x * res + y) * res + z,
                    forall|i: int|
                        0 <= i < cells@.len() ==> #[trigger] cells@[i] == cell_at(res, i),
                decreases resolution - z,
            {
                let cell = GridCell { x, y, z };
                proof {
                    lemma_cell_position(res, cell);
                }
                cells.push(cell);
                z = z + 1;
            }
            proof {
                assert((x * res + y) * res + res == (x * res + (y + 1)) * res) by (nonlinear_arith);
            }
            y = y + 1;
        }
        proof {
            assert((x * res + res) * res == (x + 1) * res * res) by (nonlinear_arith);
        }
        x = x + 1;
    }
    proof {
        assert(cells@ =~= grid_order(res));
    }
    Ok(cells)
}

/// The items whose flag is set, in their order. `keep` holds one flag per item.
pub fn select_flagged<T: Copy>(items: &Vec<T>, keep: &Vec<bool>) -> (r: Vec<T>)
    requires
        keep@.len() == items@.len(),
    ensures
        r@ == selected(items@, keep@),
{
    let mut out: Vec<T> = Vec::new();
    let mut i: usize = 0;
    while i < items.len()
        invariant
            keep@.len() == items@.len(),
            i <= items@.len(),
            out@ == selected_prefix(items@, keep@, i as nat),
        decreases items@.len() - i,
    {
        if keep[i] {
            out.push(items[i]);
        }
        i = i + 1;
    }
    out
}

/// The bytes of an occupancy texture: one byte per visited cell, 1 where the
/// cell lies near the surface and 0 elsewhere, in visiting order.
pub fn occupancy_bytes(near: &Vec<bool>) -> (r: Vec<u8>)
    ensures
        r@ == near@.map_values(|b: bool| occupancy_byte(b)),
{
    let mut bytes: Vec<u8> = Vec::new();
    let mut i: usize = 0;
    while i < near.len()
        invariant
            i <= near@.len(),
            bytes@ == near@.take(i as int).map_values(|b: bool| occupancy_byte(b)),
        decreases near@.len() - i,
    {
        let byte: u8 = if near[i] {
            1
        } else {
            0
        };
        bytes.push(byte);
        i = i + 1;
        proof {
            assert(bytes@ =~= near@.take(i as int).map_values(|b: bool| occupancy_byte(b)));
        }
    }
    proof {
        assert(near@.take(near@.len() as int) =~= near@);
    }
    bytes
}

} // verus!
