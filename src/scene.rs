//! Placement of the instance grid: an N x N square of cells centred on the
//! origin, with every instance but one at the origin tilted.
use vstd::prelude::*;

verus! {

/// One instance's place in the grid. `x2` and `z2` are its offsets from the
/// centre in half spacings (`2 * column - N`, `2 * row - N`), so the world
/// position is `spacing * (x2 / 2, 0, z2 / 2)`. `rotated` says whether the
/// instance is tilted by 45 degrees about its own position vector; only an
/// instance at the origin is left unrotated.
#[derive(Clone, Copy, Debug, PartialEq, Eq, Structural)]
pub struct GridCell {
    pub x2: i64,
    pub z2: i64,
    pub rotated: bool,
}

/// The cell of the instance in column `x` and row `z` of an `n` x `n` grid.
pub open spec fn grid_cell(n: int, x: int, z: int) -> GridCell {
    let x2 = 2 * x - n;
    let z2 = 2 * z - n;
    GridCell { x2: x2 as i64, z2: z2 as i64, rotated: !(x2 == 0 && z2 == 0) }
}

/// Row by row, the cells of an `n` x `n` grid: entry `k` is column `k % n`
/// of row `k / n`.
pub fn instance_grid(per_row: u32) -> (r: Vec<GridCell>)
    ensures
        r@.len() == per_row * per_row,
        forall|k: int|
            0 <= k < r@.len() ==> #[trigger] r@[k] == grid_cell(
                per_row as int,
                k % per_row as int,
                k / per_row as int,
            ),
{
    let n = per_row as u64;
    assert(n * n <= u32::MAX * u32::MAX) by (nonlinear_arith)
        requires
            n <= u32::MAX,
    ;
    let total: u64 = n * n;
    let mut cells: Vec<GridCell> = Vec::new();
    let mut k: u64 = 0;
    while k < total
        invariant
            n == per_row,
            total == n * n,
            k <= total,
            cells@.len() == k,
            forall|j: int|
                0 <= j < k ==> #[trigger] cells@[j] == grid_cell(n as int, j % n as int, j / n as int),
        decreases total - k,
    {
        assert(n > 0) by (nonlinear_arith)
            requires
                k < total,
                total == n * n,
        ;
        let x = k % n;
        let z = k / n;
        assert(z < n) by (nonlinear_arith)
            requires
                k < n * n,
                z == k / n,
                n > 0,
        ;
        let x2: i64 = 2 * (x as i64) - (n as i64);
        let z2: i64 = 2 * (z as i64) - (n as i64);
        cells.push(GridCell { x2, z2, rotated: !(x2 == 0 && z2 == 0) });
        k = k + 1;
    }
    cells
}

} // verus!
