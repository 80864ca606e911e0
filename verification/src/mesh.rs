//! The triangles that a renderer draws the grid with.
//!
//! Every cell is a vertex. Every square of four neighbouring cells is cut
//! into two triangles along the same diagonal, and the result is a flat
//! list of vertex numbers, three per triangle, row by row.
use vstd::prelude::*;
use vstd::arithmetic::div_mod::lemma_fundamental_div_mod_converse;
use crate::grid::{cell_index, lemma_index_in_range};

verus! {

/// The six vertex numbers of the square whose first corner is vertex
/// `corner`, in a grid `width` cells wide: the triangle of the corner, its
/// right and its lower neighbour, then the triangle that fills the square.
pub open spec fn square_triangles(corner: int, width: int) -> Seq<int> {
    seq![corner, corner + 1, corner + width, corner + 1, corner + 1 + width, corner + width]
}

/// Entry `k` of the triangle list: the squares follow one another row by
/// row, six entries each.
pub open spec fn triangle_entry(dim: (usize, usize), k: int) -> int {
    let square = k / 6;
    let x = square % (dim.0 - 1);
    let y = square / (dim.0 - 1);
    square_triangles(cell_index(x, y, dim.0 as int), dim.0 as int)[k % 6]
}

/// The triangle list of a grid.
pub open spec fn triangles_of(dim: (usize, usize)) -> Seq<u16> {
    Seq::new(
        (6 * ((dim.0 - 1) * (dim.1 - 1))) as nat,
        |k: int| triangle_entry(dim, k) as u16,
    )
}

/// The triangle list of a grid of `dim_sim.0` by `dim_sim.1` cells, for a
/// grid small enough that every vertex number fits sixteen bits.
pub fn create_index_buffer(dim_sim: (usize, usize)) -> (indices: Vec<u16>)
    requires
        dim_sim.0 >= 1,
        dim_sim.1 >= 1,
        dim_sim.0 * dim_sim.1 <= 65536,
    ensures
        indices@ == triangles_of(dim_sim),
        forall|k: int| 0 <= k < indices@.len() ==> indices@[k] == triangle_entry(dim_sim, k),
{
    let w: usize = dim_sim.0;
    let h: usize = dim_sim.1;
    let mut indices: Vec<u16> = Vec::new();
    let mut y: usize = 0;
    while y < h - 1
        invariant
            w == dim_sim.0,
            h == dim_sim.1,
            w >= 1,
            h >= 1,
            w * h <= 65536,
            y <= h - 1,
            indices@.len() == 6 * (y * (w - 1)),
            forall|k: int| 0 <= k < indices@.len() ==> indices@[k] == triangle_entry(dim_sim, k),
        decreases h - 1 - y,
    {
        let mut x: usize = 0;
        while x < w - 1
            invariant
                w == dim_sim.0,
                h == dim_sim.1,
                w >= 1,
                h >= 1,
                w * h <= 65536,
                y < h - 1,
                x <= w - 1,
                indices@.len() == 6 * (y * (w - 1) + x),
                forall|k: int|
                    0 <= k < indices@.len() ==> indices@[k] == triangle_entry(dim_sim, k),
            decreases w - 1 - x,
        {
            proof {
                lemma_index_in_range(x as int, y as int, w as int, h as int);
                lemma_index_in_range(x + 1, y + 1, w as int, h as int);
                assert((y + 1) * w == y * w + w) by (nonlinear_arith);
                assert(0 <= y * (w - 1)) by (nonlinear_arith)
                    requires
                        0 <= y,
                        1 <= w,
                ;
                lemma_fundamental_div_mod_converse(
                    y * (w - 1) + x,
                    w - 1,
                    y as int,
                    x as int,
                );
            }
            let ghost square = y * (w - 1) + x;
            let ghost start = indices@;
            let i: usize = y * w + x;
            indices.push(i as u16);
            indices.push((i + 1) as u16);
            indices.push((i + w) as u16);
            indices.push((i + 1) as u16);
            indices.push((i + 1 + w) as u16);
            indices.push((i + w) as u16);
            x = x + 1;
            assert forall|k: int| 0 <= k < indices@.len() implies indices@[k] == triangle_entry(
                dim_sim,
                k,
            ) by {
                if k < start.len() {
                    assert(indices@[k] == start[k]);
                } else {
                    assert(k / 6 == square);
                    assert(square_triangles(i as int, w as int)[k % 6] == indices@[k]);
                }
            }
        }
        proof {
            assert(y * (w - 1) + (w - 1) == (y + 1) * (w - 1)) by (nonlinear_arith);
        }
        y = y + 1;
    }
    proof {
        assert((h - 1) * (w - 1) == (w - 1) * (h - 1)) by (nonlinear_arith);
        assert forall|k: int| 0 <= k < indices@.len() implies 0 <= #[trigger] triangle_entry(
            dim_sim,
            k,
        ) <= u16::MAX by {
            assert(indices@[k] == triangle_entry(dim_sim, k));
        }
        assert(indices@ =~= triangles_of(dim_sim));
    }
    indices
}

} // verus!
