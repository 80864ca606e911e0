//! The four-neighbour stencil of the relaxation and projection passes.
//!
//! Both passes update inner cells only, each from the four cells that share
//! a side with it; the ring of wall cells is left to the boundary pass.
use vstd::prelude::*;
use crate::flow_box::FlowBox;
use crate::grid::{cell_index, cell_pos, valid_dim, lemma_index_in_range, lemma_index_of_pos};

verus! {

/// Flat positions of the four cells that share a side with an inner cell.
#[derive(Clone, Copy, Debug, PartialEq, Eq, Structural)]
pub struct Neighbors {
    /// One column further.
    pub right: usize,
    /// One column back.
    pub left: usize,
    /// One row further.
    pub down: usize,
    /// One row back.
    pub up: usize,
}

/// Whether the cell at flat position `i` is an inner cell: a cell of the
/// grid that lies on none of its four walls.
pub open spec fn is_inner(dim: (usize, usize), i: int) -> bool {
    let (x, y) = cell_pos(i, dim.0 as int);
    1 <= x <= dim.0 - 2 && 1 <= y <= dim.1 - 2
}

/// The neighbours of the cell at flat position `i`, for inner cells only.
pub open spec fn neighbors_of(dim: (usize, usize), i: int) -> Option<Neighbors> {
    let w = dim.0 as int;
    let (x, y) = cell_pos(i, w);
    if is_inner(dim, i) {
        Some(
            Neighbors {
                right: cell_index(x + 1, y, w) as usize,
                left: cell_index(x - 1, y, w) as usize,
                down: cell_index(x, y + 1, w) as usize,
                up: cell_index(x, y - 1, w) as usize,
            },
        )
    } else {
        None
    }
}

/// The neighbours of an inner cell sit one place and one row away from it
/// in the flat buffer, and all of them are cells of the grid.
pub proof fn lemma_neighbors_offsets(dim: (usize, usize), i: int)
    requires
        valid_dim(dim),
        0 <= i,
        is_inner(dim, i),
    ensures
        neighbors_of(dim, i) == Some(
            Neighbors {
                right: (i + 1) as usize,
                left: (i - 1) as usize,
                down: (i + dim.0) as usize,
                up: (i - dim.0) as usize,
            },
        ),
        dim.0 < i < dim.0 * dim.1 - dim.0 - 1,
{
    let w = dim.0 as int;
    let h = dim.1 as int;
    let (x, y) = cell_pos(i, w);
    lemma_index_of_pos(i, w);
    lemma_index_in_range(x + 1, y, w, h);
    lemma_index_in_range(x - 1, y, w, h);
    lemma_index_in_range(x, y + 1, w, h);
    lemma_index_in_range(x, y - 1, w, h);
    lemma_index_in_range(x, y, w, h);
    assert((y + 1) * w == y * w + w) by (nonlinear_arith);
    assert((y - 1) * w == y * w - w) by (nonlinear_arith);
    assert((y + 1) * w <= (h - 1) * w) by (nonlinear_arith)
        requires
            y + 1 <= h - 1,
            0 <= w,
    ;
    assert((h - 1) * w == w * h - w) by (nonlinear_arith);
    assert(1 * w <= y * w) by (nonlinear_arith)
        requires
            1 <= y,
            0 <= w,
    ;
}

impl<T> FlowBox<T> {
    /// The four cells that the relaxation and projection passes read for
    /// the cell at flat position `i`, or `None` where those passes leave
    /// the cell alone: on the walls and outside the grid.
    pub fn neighbors(i: &usize, dim: &(usize, usize)) -> (found: Option<Neighbors>)
        requires
            valid_dim(*dim),
        ensures
            found == neighbors_of(*dim, *i as int),
            found is Some ==> {
                &&& found->0.right < dim.0 * dim.1
                &&& found->0.left < dim.0 * dim.1
                &&& found->0.down < dim.0 * dim.1
                &&& found->0.up < dim.0 * dim.1
            },
    {
        let w: usize = dim.0;
        let h: usize = dim.1;
        let x: usize = *i % w;
        let y: usize = *i / w;
        if 1 <= x && x <= w - 2 && 1 <= y && y <= h - 2 {
            proof {
                lemma_neighbors_offsets(*dim, *i as int);
            }
            Some(Neighbors { right: *i + 1, left: *i - 1, down: *i + w, up: *i - w })
        } else {
            None
        }
    }
}

} // verus!
