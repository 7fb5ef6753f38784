use vstd::prelude::*;
use vstd::arithmetic::div_mod::lemma_fundamental_div_mod;
use vstd::arithmetic::div_mod::lemma_fundamental_div_mod_converse;
use crate::params::MAX_GRID_DIM;

verus! {

/// Position of grid point `(i, j)` in a row-major sequence of rows `width` long.
pub open spec fn grid_index(width: int, i: int, j: int) -> int {
    j * width + i
}

/// The row-major position of a grid point is in range, and column and row can be
/// read back from it.
pub proof fn lemma_grid_index(width: int, height: int, i: int, j: int)
    requires
        0 <= i < width,
        0 <= j < height,
    ensures
        0 <= grid_index(width, i, j) < width * height,
        grid_index(width, i, j) % width == i,
        grid_index(width, i, j) / width == j,
{
    lemma_fundamental_div_mod_converse(grid_index(width, i, j), width, j, i);
    assert(0 <= j * width && (j + 1) * width <= height * width) by (nonlinear_arith)
        requires
            0 <= j < height,
            0 < width,
    ;
    assert((j + 1) * width == j * width + width) by (nonlinear_arith);
    assert(height * width == width * height) by (nonlinear_arith);
}

/// Every position of a row-major sequence belongs to exactly one grid point.
pub proof fn lemma_grid_coords(width: int, height: int, k: int)
    requires
        0 < width,
        0 <= k < width * height,
    ensures
        0 <= k % width < width,
        0 <= k / width < height,
        grid_index(width, k % width, k / width) == k,
{
    lemma_fundamental_div_mod(k, width);
    let q = k / width;
    assert(width * q == q * width) by (nonlinear_arith);
    assert(0 <= q < height) by (nonlinear_arith)
        requires
            0 < width,
            0 <= k < width * height,
            k == q * width + k % width,
            0 <= k % width < width,
    ;
}

/// Computes the row-major position of grid point `(i, j)`.
pub fn flat_index(width: i32, i: i32, j: i32) -> (k: usize)
    requires
        0 <= i < width <= MAX_GRID_DIM,
        0 <= j < MAX_GRID_DIM,
    ensures
        k == grid_index(width as int, i as int, j as int),
{
    assert(0 <= j * width <= 1024 * 1024) by (nonlinear_arith)
        requires
            0 <= j < 1024,
            0 < width <= 1024,
    ;
    (j * width + i) as usize
}

} // verus!
