//! Layout of the instanced model: a square grid of cells centred on the origin.
//!
//! A cell `(x, z)` of an `n`-by-`n` grid with spacing `s` sits at
//! `(s * (x - n / 2), 0, s * (z - n / 2))`, where `n / 2` is a true half.
//! To stay in integers the offsets are given in half-spacings: the position
//! is `s * offset / 2` on each axis.
use vstd::prelude::*;

verus! {

/// The largest grid side whose cell count fits in a `u32`.
pub const MAX_GRID_SIDE: u32 = 65535;

/// One cell of the grid, by column `x` and row `z`.
#[derive(Clone, Copy, Debug, PartialEq, Eq, Structural)]
pub struct GridCell {
    pub x: u32,
    pub z: u32,
}

/// Offset of a cell from the grid centre, in half-spacings on each axis.
#[derive(Clone, Copy, Debug, PartialEq, Eq, Structural)]
pub struct HalfOffset {
    pub x: i64,
    pub z: i64,
}

/// The `k`-th cell of an `n`-wide grid: rows (`z`) outside, columns (`x`) inside.
pub open spec fn cell_at(n: nat, k: nat) -> GridCell
    recommends
        n > 0,
{
    GridCell { x: (k % n) as u32, z: (k / n) as u32 }
}

/// Twice the signed distance of grid index `i` from the centre of `n` cells.
pub open spec fn half_offset_of(n: int, i: int) -> int {
    2 * i - n
}

/// Number of instances drawn for an `n`-wide grid.
pub open spec fn spec_instance_count(n: nat) -> nat {
    n * n
}

pub fn instance_count(n: u32) -> (r: u32)
    requires
        n <= MAX_GRID_SIDE,
    ensures
        r == spec_instance_count(n as nat),
{
    proof {
        assert(n * n <= MAX_GRID_SIDE * MAX_GRID_SIDE) by (nonlinear_arith)
            requires
                n <= MAX_GRID_SIDE,
        ;
    }
    n * n
}

/// Every cell of an `n`-wide grid, row by row.
pub fn grid_cells(n: u32) -> (r: Vec<GridCell>)
    requires
        n <= MAX_GRID_SIDE,
    ensures
        r@.len() == spec_instance_count(n as nat),
        forall|k: int| 0 <= k < r@.len() ==> r@[k] == cell_at(n as nat, k as nat),
        forall|k: int| 0 <= k < r@.len() ==> r@[k].x < n && r@[k].z < n,
{
    let mut cells: Vec<GridCell> = Vec::new();
    let mut z: u32 = 0;
    while z < n
        invariant
            z <= n <= MAX_GRID_SIDE,
            cells@.len() == z * n,
            forall|k: int| 0 <= k < cells@.len() ==> cells@[k] == cell_at(n as nat, k as nat),
        decreases n - z,
    {
        let mut x: u32 = 0;
        while x < n
            invariant
                z < n <= MAX_GRID_SIDE,
                x <= n,
                cells@.len() == z * n + x,
                forall|k: int| 0 <= k < cells@.len() ==> cells@[k] == cell_at(n as nat, k as nat),
            decreases n - x,
        {
            proof {
                let k = z * n + x;
                assert(k % (n as int) == x as int && k / (n as int) == z as int) by {
                    vstd::arithmetic::div_mod::lemma_fundamental_div_mod_converse(
                        k as int,
                        n as int,
                        z as int,
                        x as int,
                    );
                }
            }
            cells.push(GridCell { x, z });
            x = x + 1;
        }
        proof {
            assert((z + 1) * n == z * n + n) by (nonlinear_arith);
        }
        z = z + 1;
    }
    proof {
        assert forall|k: int| 0 <= k < cells@.len() implies cells@[k].x < n && cells@[k].z < n by {
            assert(k / (n as int) < n) by {
                vstd::arithmetic::div_mod::lemma_multiply_divide_lt(k, n as int, n as int);
            }
        }
    }
    cells
}

/// Offset of `cell` from the centre of an `n`-wide grid, in half-spacings.
pub fn cell_half_offset(n: u32, cell: GridCell) -> (r: HalfOffset)
    ensures
        r.x == half_offset_of(n as int, cell.x as int),
        r.z == half_offset_of(n as int, cell.z as int),
{
    HalfOffset { x: 2 * (cell.x as i64) - n as i64, z: 2 * (cell.z as i64) - n as i64 }
}

/// The half-spacing offsets of every cell of an `n`-wide grid, row by row.
pub fn instance_offsets(n: u32) -> (r: Vec<HalfOffset>)
    requires
        n <= MAX_GRID_SIDE,
    ensures
        r@.len() == spec_instance_count(n as nat),
        forall|k: int|
            #![trigger r@[k]]
            0 <= k < r@.len() ==> r@[k].x == half_offset_of(n as int, k % (n as int))
                && r@[k].z == half_offset_of(n as int, k / (n as int)),
{
    let cells = grid_cells(n);
    let mut offsets: Vec<HalfOffset> = Vec::new();
    let mut i: usize = 0;
    while i < cells.len()
        invariant
            i <= cells@.len() == spec_instance_count(n as nat),
            forall|k: int| 0 <= k < cells@.len() ==> cells@[k] == cell_at(n as nat, k as nat),
            offsets@.len() == i,
            forall|k: int|
                #![trigger offsets@[k]]
                0 <= k < i ==> offsets@[k].x == half_offset_of(n as int, k % (n as int))
                    && offsets@[k].z == half_offset_of(n as int, k / (n as int)),
        decreases cells@.len() - i,
    {
        let o = cell_half_offset(n, cells[i]);
        proof {
            let k = i as int;
            assert(k % (n as int) < n) by {
                vstd::arithmetic::div_mod::lemma_mod_bound(k, n as int);
            }
            assert(k / (n as int) < n) by {
                vstd::arithmetic::div_mod::lemma_multiply_divide_lt(k, n as int, n as int);
            }
        }
        offsets.push(o);
        i = i + 1;
    }
    offsets
}

} // verus!
