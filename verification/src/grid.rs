//! Row-major cell addressing.
//!
//! A grid of `width` by `height` cells is stored flat, one row after the
//! other: cell `(x, y)` lives at `x + y * width`.
use vstd::prelude::*;
use crate::flow_box::FlowBox;

verus! {

/// Flat position of cell `(x, y)` in a grid `width` cells wide.
pub open spec fn cell_index(x: int, y: int, width: int) -> int {
    x + y * width
}

/// Column and row of the cell stored at flat position `i`.
pub open spec fn cell_pos(i: int, width: int) -> (int, int) {
    (i % width, i / width)
}

/// Dimensions a solver can work on: at least two cells along each axis, so
/// that every wall cell has a neighbour one step inward, and a cell count
/// that fits the machine word.
pub open spec fn valid_dim(dim: (usize, usize)) -> bool {
    &&& dim.0 >= 2
    &&& dim.1 >= 2
    &&& dim.0 * dim.1 <= usize::MAX
}

/// The coordinate `v` pulled back into `0..extent`.
pub open spec fn clamp_to(v: int, extent: int) -> int {
    if v < 0 {
        0
    } else if v > extent - 1 {
        extent - 1
    } else {
        v
    }
}

/// The cell that an injection at `(x, y)` lands in: the cell of the grid
/// that is nearest to the point.
pub open spec fn target_cell(x: usize, y: usize, dim: (usize, usize)) -> int {
    cell_index(clamp_to(x as int, dim.0 as int), clamp_to(y as int, dim.1 as int), dim.0 as int)
}

/// The flat position of `(i, j)`, held back to the last cell of the grid.
pub open spec fn sample_index_of(i: int, j: int, dim: (usize, usize)) -> int {
    let at = cell_index(i, j, dim.0 as int);
    let last = dim.0 * dim.1 - 1;
    if at > last {
        last
    } else {
        at
    }
}

/// Every cell of the grid has a flat position below the cell count.
pub proof fn lemma_index_in_range(x: int, y: int, width: int, height: int)
    requires
        0 <= x < width,
        0 <= y < height,
    ensures
        0 <= cell_index(x, y, width) < width * height,
        y * width <= cell_index(x, y, width) < (y + 1) * width,
{
    assert(y * width + width == (y + 1) * width) by (nonlinear_arith);
    assert(0 <= y * width) by (nonlinear_arith)
        requires
            0 <= y,
            0 <= width,
    ;
    assert((y + 1) * width <= height * width) by (nonlinear_arith)
        requires
            y + 1 <= height,
            0 <= width,
    ;
    assert(height * width == width * height) by (nonlinear_arith);
}

/// Taking a cell to its flat position and back gives the cell again.
pub proof fn lemma_pos_of_index(x: int, y: int, width: int)
    requires
        0 <= x < width,
        0 <= y,
    ensures
        cell_pos(cell_index(x, y, width), width) == (x, y),
{
    vstd::arithmetic::div_mod::lemma_fundamental_div_mod_converse(x + y * width, width, y, x);
}

/// Taking a flat position to its cell and back gives the position again.
pub proof fn lemma_index_of_pos(i: int, width: int)
    requires
        0 <= i,
        0 < width,
    ensures
        cell_index(cell_pos(i, width).0, cell_pos(i, width).1, width) == i,
        0 <= cell_pos(i, width).0 < width,
        0 <= cell_pos(i, width).1,
{
    vstd::arithmetic::div_mod::lemma_fundamental_div_mod(i, width);
    vstd::arithmetic::div_mod::lemma_div_pos_is_pos(i, width);
    assert(width * (i / width) == (i / width) * width) by (nonlinear_arith);
}

/// A flat position below the cell count names a cell of the grid.
pub proof fn lemma_pos_in_grid(i: int, width: int, height: int)
    requires
        0 < width,
        0 <= i < width * height,
    ensures
        0 <= cell_pos(i, width).0 < width,
        0 <= cell_pos(i, width).1 < height,
{
    lemma_index_of_pos(i, width);
    let y = i / width;
    if y >= height {
        assert(y * width >= height * width) by (nonlinear_arith)
            requires
                y >= height,
                0 < width,
        ;
        assert(height * width == width * height) by (nonlinear_arith);
    }
}

/// Two cells of one grid that share a flat position are the same cell.
pub proof fn lemma_index_injective(x1: int, y1: int, x2: int, y2: int, width: int)
    requires
        0 <= x1 < width,
        0 <= x2 < width,
        0 <= y1,
        0 <= y2,
        cell_index(x1, y1, width) == cell_index(x2, y2, width),
    ensures
        x1 == x2,
        y1 == y2,
{
    lemma_pos_of_index(x1, y1, width);
    lemma_pos_of_index(x2, y2, width);
}

/// Samples are read from cells of the grid, wherever the lines lie, and a
/// sample at a cell of the grid is read from that cell.
pub proof fn lemma_sample_in_grid(i: int, j: int, dim: (usize, usize))
    requires
        valid_dim(dim),
        0 <= i,
        0 <= j,
    ensures
        0 <= sample_index_of(i, j, dim) < dim.0 * dim.1,
        i < dim.0 && j < dim.1 ==> sample_index_of(i, j, dim) == cell_index(i, j, dim.0 as int),
{
    assert(0 <= j * dim.0) by (nonlinear_arith)
        requires
            0 <= j,
            0 <= dim.0,
    ;
    assert(dim.0 * dim.1 >= 4) by (nonlinear_arith)
        requires
            dim.0 >= 2,
            dim.1 >= 2,
    ;
    if i < dim.0 && j < dim.1 {
        lemma_index_in_range(i, j, dim.0 as int, dim.1 as int);
    }
}

impl<T> FlowBox<T> {
    /// Flat position of cell `(x, y)` in a grid of dimensions `dim`.
    ///
    /// The coordinates are not held against the grid: any pair whose flat
    /// position fits the machine word is taken.
    #[inline]
    pub fn index(x: &usize, y: &usize, dim: &(usize, usize)) -> (i: usize)
        requires
            cell_index(*x as int, *y as int, dim.0 as int) <= usize::MAX,
        ensures
            i == cell_index(*x as int, *y as int, dim.0 as int),
    {
        assert(0 <= *y * dim.0) by (nonlinear_arith);
        *x + *y * dim.0
    }

    /// The cell that an injection at `(x, y)` lands in: each coordinate is
    /// first pulled back into the grid, so that a point beyond a wall
    /// lands in the nearest cell of that wall.
    pub fn cell_at(x: &usize, y: &usize, dim: &(usize, usize)) -> (i: usize)
        requires
            valid_dim(*dim),
        ensures
            i == target_cell(*x, *y, *dim),
            i < dim.0 * dim.1,
    {
        let cx: usize = if *x < dim.0 {
            *x
        } else {
            dim.0 - 1
        };
        let cy: usize = if *y < dim.1 {
            *y
        } else {
            dim.1 - 1
        };
        proof {
            lemma_index_in_range(cx as int, cy as int, dim.0 as int, dim.1 as int);
        }
        Self::index(&cx, &cy, dim)
    }

    /// The cell that a sample at column `i`, row `j` is read from: the flat
    /// position of `(i, j)`, held back to the last cell of the grid where
    /// it would lie beyond it.
    pub fn sample_index(i: &usize, j: &usize, dim: &(usize, usize)) -> (s: usize)
        requires
            valid_dim(*dim),
        ensures
            s == sample_index_of(*i as int, *j as int, *dim),
            s < dim.0 * dim.1,
    {
        let w: usize = dim.0;
        let h: usize = dim.1;
        assert(w * h >= 4) by (nonlinear_arith)
            requires
                w >= 2,
                h >= 2,
        ;
        let last: usize = w * h - 1;
        if *j >= h {
            proof {
                assert(*j * w >= h * w) by (nonlinear_arith)
                    requires
                        *j >= h,
                        w >= 0,
                ;
                assert(h * w == w * h) by (nonlinear_arith);
            }
            last
        } else {
            proof {
                lemma_index_in_range(0, *j as int, w as int, h as int);
            }
            let row: usize = *j * w;
            if *i >= w * h - row {
                last
            } else {
                *i + row
            }
        }
    }

    /// Column and row of the cell at flat position `i`.
    #[inline]
    pub fn pos(i: &usize, dim: &(usize, usize)) -> (p: (usize, usize))
        requires
            dim.0 > 0,
        ensures
            (p.0 as int, p.1 as int) == cell_pos(*i as int, dim.0 as int),
    {
        (*i % dim.0, *i / dim.0)
    }
}

} // verus!
