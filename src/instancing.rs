//! The grid on which instanced copies of the model stand.
use vstd::prelude::*;

verus! {

/// A cell of the instance grid.
#[derive(Clone, Copy, Debug, PartialEq, Eq)]
pub struct GridCell {
    pub x: u32,
    pub z: u32,
}

/// The cells of an `n` by `n` grid, row by row: `z` outer, `x` inner.
pub fn grid_cells(n: u32) -> (r: Vec<GridCell>)
    requires
        (n as int) * (n as int) <= usize::MAX,
    ensures
        r.len() == (n as int) * (n as int),
        forall|i: int| 0 <= i < r.len() ==> #[trigger] r@[i] == (GridCell { x: (i % n as int) as u32, z: (i / n as int) as u32 }),
{
    let mut r: Vec<GridCell> = Vec::new();
    let mut z: u32 = 0;
    while z < n
        invariant
            z <= n,
            (n as int) * (n as int) <= usize::MAX,
            r.len() == (z as int) * (n as int),
            forall|i: int| 0 <= i < r.len() ==> #[trigger] r@[i] == (GridCell { x: (i % n as int) as u32, z: (i / n as int) as u32 }),
        decreases n - z,
    {
        let mut x: u32 = 0;
        while x < n
            invariant
                x <= n,
                z < n,
                (n as int) * (n as int) <= usize::MAX,
                r.len() == (z as int) * (n as int) + x,
                forall|i: int| 0 <= i < r.len() ==> #[trigger] r@[i] == (GridCell { x: (i % n as int) as u32, z: (i / n as int) as u32 }),
            decreases n - x,
        {
            proof {
                let i = (z as int) * (n as int) + x;
                assert(i % (n as int) == x && i / (n as int) == z) by (nonlinear_arith)
                    requires i == (z as int) * (n as int) + x, 0 <= x < n;
                assert(i < (n as int) * (n as int)) by (nonlinear_arith)
                    requires i == (z as int) * (n as int) + x, 0 <= x < n, z < n;
            }
            r.push(GridCell { x, z });
            x = x + 1;
        }
        proof {
            assert((z as int) * (n as int) + n == (z + 1) * (n as int)) by (nonlinear_arith);
        }
        z = z + 1;
    }
    r
}

} // verus!
