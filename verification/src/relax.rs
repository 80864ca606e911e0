//! Relaxation: the sweeps that solve for diffusion and for pressure.
//!
//! One sweep gives every inner cell a new value from its source term and
//! from its four neighbours as they stood when the sweep began, then
//! rewrites the walls. A solve is a fixed number of sweeps; nothing tests
//! whether it has converged.
use vstd::prelude::*;
use crate::arithmetic::{
    answers, number, over, plus, product, quotient, sum, times, whole, Operation,
};
use crate::boundary::{enforced, Bound};
use crate::flow_box::FlowBox;
use crate::grid::valid_dim;
use crate::parallel::par_collect;
use crate::stencil::neighbors_of;

verus! {

/// The relaxed value of a cell: its source term plus `strength` times the
/// sum of its four neighbours, all divided by `diagonal`.
pub open spec fn relax_value<T, E: Fn(Operation<T>) -> T>(
    eval: &E,
    source: T,
    strength: T,
    diagonal: T,
    right: T,
    left: T,
    down: T,
    up: T,
) -> T {
    let around = sum(eval, sum(eval, sum(eval, right, left), down), up);
    quotient(eval, sum(eval, source, product(eval, strength, around)), diagonal)
}

/// The field after the first half of one sweep: every inner cell holds the
/// relaxed value of its source term and its four neighbours in `field`;
/// the walls are as they were.
pub open spec fn swept<T, E: Fn(Operation<T>) -> T>(
    dim: (usize, usize),
    field: Seq<T>,
    source: Seq<T>,
    strength: T,
    diagonal: T,
    eval: &E,
) -> Seq<T> {
    Seq::new(
        field.len(),
        |i: int|
            match neighbors_of(dim, i) {
                Some(near) => relax_value(
                    eval,
                    source[i],
                    strength,
                    diagonal,
                    field[near.right as int],
                    field[near.left as int],
                    field[near.down as int],
                    field[near.up as int],
                ),
                None => field[i],
            },
    )
}

/// The field after `sweeps` sweeps with neighbour weight `strength` and
/// diagonal `diagonal`, each followed by the boundary pass.
pub open spec fn relaxed<T, E: Fn(Operation<T>) -> T>(
    bound: Bound,
    dim: (usize, usize),
    field: Seq<T>,
    source: Seq<T>,
    strength: T,
    diagonal: T,
    sweeps: nat,
    eval: &E,
) -> Seq<T>
    decreases sweeps,
{
    if sweeps == 0 {
        field
    } else {
        let earlier = relaxed(
            bound,
            dim,
            field,
            source,
            strength,
            diagonal,
            (sweeps - 1) as nat,
            eval,
        );
        enforced(
            bound,
            dim,
            swept(dim, earlier, source, strength, diagonal, eval),
            eval,
        )
    }
}

/// The neighbour weight of a diffusion at rate `diff` over a time `dt`:
/// their product times ten thousand.
pub open spec fn diffusion_strength<T, E: Fn(Operation<T>) -> T>(eval: &E, dt: T, diff: T) -> T {
    product(eval, product(eval, dt, diff), whole(eval, 10000))
}

/// The diagonal that goes with a neighbour weight: one plus four times the
/// weight.
pub open spec fn diffusion_diagonal<T, E: Fn(Operation<T>) -> T>(eval: &E, strength: T) -> T {
    sum(eval, whole(eval, 1), product(eval, whole(eval, 4), strength))
}

/// The field after diffusing `source` into it at rate `diff` over a time
/// `dt`: sweeps whose neighbour weight is the diffusion strength and whose
/// diagonal is the diffusion diagonal of that strength.
pub open spec fn diffused<T, E: Fn(Operation<T>) -> T>(
    bound: Bound,
    dim: (usize, usize),
    field: Seq<T>,
    source: Seq<T>,
    diff: T,
    dt: T,
    iters: usize,
    eval: &E,
) -> Seq<T> {
    let a = diffusion_strength(eval, dt, diff);
    relaxed(bound, dim, field, source, a, diffusion_diagonal(eval, a), iters as nat, eval)
}

/// The relaxed value of one cell.
fn relax_cell<T: Copy, E: Fn(Operation<T>) -> T>(
    eval: &E,
    source: T,
    strength: T,
    diagonal: T,
    right: T,
    left: T,
    down: T,
    up: T,
) -> (value: T)
    requires
        answers(eval),
    ensures
        value == relax_value(eval, source, strength, diagonal, right, left, down, up),
{
    let across: T = plus(eval, right, left);
    let three: T = plus(eval, across, down);
    let around: T = plus(eval, three, up);
    let weighed: T = times(eval, strength, around);
    let total: T = plus(eval, source, weighed);
    over(eval, total, diagonal)
}

impl<T: Copy + Send + Sync> FlowBox<T> {
    /// Solves for `vals` by `iters` sweeps against the source term `vals0`,
    /// with neighbour weight `a` and diagonal `c`, starting from what
    /// `vals` holds.
    pub fn lin_solve<E: Fn(Operation<T>) -> T + Sync + Send>(
        bound: &Bound,
        vals: &mut Vec<T>,
        vals0: &Vec<T>,
        a: T,
        c: T,
        iters: usize,
        dim: &(usize, usize),
        eval: &E,
    )
        requires
            valid_dim(*dim),
            old(vals)@.len() == dim.0 * dim.1,
            vals0@.len() == dim.0 * dim.1,
            answers(eval),
        ensures
            final(vals)@ == relaxed(*bound, *dim, old(vals)@, vals0@, a, c, iters as nat, eval),
            final(vals)@.len() == old(vals)@.len(),
    {
        let cells: usize = vals.len();
        let ghost before = vals@;
        let mut done: usize = 0;
        while done < iters
            invariant
                done <= iters,
                valid_dim(*dim),
                cells == dim.0 * dim.1,
                vals@.len() == cells,
                vals0@.len() == cells,
                answers(eval),
                vals@ == relaxed(*bound, *dim, before, vals0@, a, c, done as nat, eval),
            decreases iters - done,
        {
            let ghost earlier = vals@;
            let ghost wanted = swept(*dim, earlier, vals0@, a, c, eval);
            let snapshot: &Vec<T> = &*vals;
            let next: Vec<T> = par_collect(
                cells,
                |i: usize| -> (v: T)
                    requires
                        i < cells,
                    ensures
                        v == wanted[i as int],
                    {
                        match Self::neighbors(&i, dim) {
                            Some(near) => relax_cell(
                                eval,
                                vals0[i],
                                a,
                                c,
                                snapshot[near.right],
                                snapshot[near.left],
                                snapshot[near.down],
                                snapshot[near.up],
                            ),
                            None => snapshot[i],
                        }
                    }
            );
            assert(next@ =~= wanted);
            *vals = next;
            Self::set_bound(bound, vals, dim, eval);
            done = done + 1;
        }
    }

    /// Diffuses `vals0` into `vals` at rate `diff` over a time `dt`, by
    /// `iters` sweeps that start from what `vals` holds.
    pub fn diffuse<E: Fn(Operation<T>) -> T + Sync + Send>(
        b: &Bound,
        vals: &mut Vec<T>,
        vals0: &Vec<T>,
        diff: T,
        dt: T,
        iters: usize,
        dim: &(usize, usize),
        eval: &E,
    )
        requires
            valid_dim(*dim),
            old(vals)@.len() == dim.0 * dim.1,
            vals0@.len() == dim.0 * dim.1,
            answers(eval),
        ensures
            final(vals)@ == diffused(*b, *dim, old(vals)@, vals0@, diff, dt, iters, eval),
            final(vals)@.len() == old(vals)@.len(),
    {
        let spread: T = times(eval, dt, diff);
        let scale: T = number(eval, 10000);
        let a: T = times(eval, spread, scale);
        let one: T = number(eval, 1);
        let four: T = number(eval, 4);
        let around: T = times(eval, four, a);
        let c: T = plus(eval, one, around);
        Self::lin_solve(b, vals, vals0, a, c, iters, dim, eval);
    }
}

} // verus!
