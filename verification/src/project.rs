//! Projection: making the velocity field free of divergence.
//!
//! The divergence of the velocity is measured at every inner cell, a
//! pressure is solved for against it, and the slope of that pressure is
//! taken off the velocity.
use vstd::prelude::*;
use crate::arithmetic::{
    answers, difference, half, minus, negated, number, one_half, opposite, plus, product, sum,
    times, whole, Operation,
};
use crate::boundary::{enforced, Bound};
use crate::density::{filled, uniform};
use crate::flow_box::FlowBox;
use crate::grid::valid_dim;
use crate::parallel::par_collect;
use crate::relax::relaxed;
use crate::stencil::neighbors_of;

verus! {

/// The four fields that a projection leaves behind.
pub ghost struct Projected<T> {
    /// The horizontal velocity with the pressure slope taken off.
    pub vel_x: Seq<T>,
    /// The vertical velocity with the pressure slope taken off.
    pub vel_y: Seq<T>,
    /// The pressure that was solved for.
    pub p: Seq<T>,
    /// The divergence that the velocity had.
    pub div: Seq<T>,
}

/// The divergence at a cell: minus one half times the sum of the change
/// of the horizontal velocity across it and the change of the vertical
/// velocity down it.
pub open spec fn divergence_value<T, E: Fn(Operation<T>) -> T>(
    eval: &E,
    right: T,
    left: T,
    down: T,
    up: T,
) -> T {
    product(
        eval,
        negated(eval, half(eval)),
        sum(eval, difference(eval, right, left), difference(eval, down, up)),
    )
}

/// A velocity corrected by the pressure: the value less one half of the
/// change of the pressure from the cell behind to the cell ahead.
pub open spec fn corrected_value<T, E: Fn(Operation<T>) -> T>(
    eval: &E,
    value: T,
    ahead: T,
    behind: T,
) -> T {
    difference(eval, value, product(eval, half(eval), difference(eval, ahead, behind)))
}

/// The divergence field before its walls are rewritten: every inner cell
/// holds the divergence of the horizontal velocity to its right and left
/// and the vertical velocity below and above it; the walls are as they
/// were in `div`.
pub open spec fn measured<T, E: Fn(Operation<T>) -> T>(
    dim: (usize, usize),
    vel_x: Seq<T>,
    vel_y: Seq<T>,
    div: Seq<T>,
    eval: &E,
) -> Seq<T> {
    Seq::new(
        div.len(),
        |i: int|
            match neighbors_of(dim, i) {
                Some(near) => divergence_value(
                    eval,
                    vel_x[near.right as int],
                    vel_x[near.left as int],
                    vel_y[near.down as int],
                    vel_y[near.up as int],
                ),
                None => div[i],
            },
    )
}

/// A velocity component before its walls are rewritten: every inner cell
/// is corrected by the pressure ahead of and behind it, along the rows for
/// the horizontal component and along the columns for the vertical one;
/// the walls are as they were.
pub open spec fn corrected<T, E: Fn(Operation<T>) -> T>(
    dim: (usize, usize),
    vel: Seq<T>,
    p: Seq<T>,
    horizontal: bool,
    eval: &E,
) -> Seq<T> {
    Seq::new(
        vel.len(),
        |i: int|
            match neighbors_of(dim, i) {
                Some(near) => corrected_value(
                    eval,
                    vel[i],
                    p[if horizontal {
                        near.right as int
                    } else {
                        near.down as int
                    }],
                    p[if horizontal {
                        near.left as int
                    } else {
                        near.up as int
                    }],
                ),
                None => vel[i],
            },
    )
}

/// What a projection leaves in its four fields. The divergence is measured
/// and the pressure set to zero everywhere, both get their walls rewritten
/// as plain scalars, the pressure is solved for with neighbour weight one
/// and diagonal six, and each velocity component is corrected and gets its
/// own walls.
pub open spec fn projected<T, E: Fn(Operation<T>) -> T>(
    dim: (usize, usize),
    vel_x: Seq<T>,
    vel_y: Seq<T>,
    p: Seq<T>,
    div: Seq<T>,
    iters: usize,
    eval: &E,
) -> Projected<T> {
    let div_done = enforced(Bound::Neither, dim, measured(dim, vel_x, vel_y, div, eval), eval);
    let p_reset = enforced(Bound::Neither, dim, filled(p.len(), whole(eval, 0)), eval);
    let p_done = relaxed(
        Bound::Neither,
        dim,
        p_reset,
        div_done,
        whole(eval, 1),
        whole(eval, 6),
        iters as nat,
        eval,
    );
    Projected {
        vel_x: enforced(Bound::X, dim, corrected(dim, vel_x, p_done, true, eval), eval),
        vel_y: enforced(Bound::Y, dim, corrected(dim, vel_y, p_done, false, eval), eval),
        p: p_done,
        div: div_done,
    }
}

/// The divergence at one cell, given minus one half.
fn divergence_cell<T: Copy, E: Fn(Operation<T>) -> T>(
    eval: &E,
    minus_half: T,
    right: T,
    left: T,
    down: T,
    up: T,
) -> (value: T)
    requires
        answers(eval),
        minus_half == negated(eval, half(eval)),
    ensures
        value == divergence_value(eval, right, left, down, up),
{
    let across: T = minus(eval, right, left);
    let along: T = minus(eval, down, up);
    let both: T = plus(eval, across, along);
    times(eval, minus_half, both)
}

/// The corrected velocity of one cell, given one half.
fn corrected_cell<T: Copy, E: Fn(Operation<T>) -> T>(
    eval: &E,
    halved: T,
    value: T,
    ahead: T,
    behind: T,
) -> (fixed: T)
    requires
        answers(eval),
        halved == half(eval),
    ensures
        fixed == corrected_value(eval, value, ahead, behind),
{
    let slope: T = minus(eval, ahead, behind);
    let part: T = times(eval, halved, slope);
    minus(eval, value, part)
}

impl<T: Copy + Send + Sync> FlowBox<T> {
    /// Takes the divergence out of the velocity `(vel_x, vel_y)` by a
    /// pressure solve of `iters` sweeps. `p` and `div` are working space:
    /// on return they hold the pressure and the divergence.
    pub fn project<E: Fn(Operation<T>) -> T + Sync + Send>(
        vel_x: &mut Vec<T>,
        vel_y: &mut Vec<T>,
        p: &mut Vec<T>,
        div: &mut Vec<T>,
        iters: usize,
        dim: &(usize, usize),
        eval: &E,
    )
        requires
            valid_dim(*dim),
            old(vel_x)@.len() == dim.0 * dim.1,
            old(vel_y)@.len() == dim.0 * dim.1,
            old(p)@.len() == dim.0 * dim.1,
            old(div)@.len() == dim.0 * dim.1,
            answers(eval),
        ensures
            final(vel_x)@ == projected(
                *dim,
                old(vel_x)@,
                old(vel_y)@,
                old(p)@,
                old(div)@,
                iters,
                eval,
            ).vel_x,
            final(vel_y)@ == projected(
                *dim,
                old(vel_x)@,
                old(vel_y)@,
                old(p)@,
                old(div)@,
                iters,
                eval,
            ).vel_y,
            final(p)@ == projected(
                *dim,
                old(vel_x)@,
                old(vel_y)@,
                old(p)@,
                old(div)@,
                iters,
                eval,
            ).p,
            final(div)@ == projected(
                *dim,
                old(vel_x)@,
                old(vel_y)@,
                old(p)@,
                old(div)@,
                iters,
                eval,
            ).div,
            final(vel_x)@.len() == dim.0 * dim.1,
            final(vel_y)@.len() == dim.0 * dim.1,
            final(p)@.len() == dim.0 * dim.1,
            final(div)@.len() == dim.0 * dim.1,
    {
        let cells: usize = div.len();
        let halved: T = one_half(eval);
        let minus_half: T = opposite(eval, halved);
        let ghost wanted_div = measured(*dim, vel_x@, vel_y@, div@, eval);
        let xs: &Vec<T> = &*vel_x;
        let ys: &Vec<T> = &*vel_y;
        let kept: &Vec<T> = &*div;
        let next_div: Vec<T> = par_collect(
            cells,
            |i: usize| -> (v: T)
                requires
                    i < cells,
                ensures
                    v == wanted_div[i as int],
                {
                    match Self::neighbors(&i, dim) {
                        Some(near) => divergence_cell(
                            eval,
                            minus_half,
                            xs[near.right],
                            xs[near.left],
                            ys[near.down],
                            ys[near.up],
                        ),
                        None => kept[i],
                    }
                }
        );
        assert(next_div@ =~= wanted_div);
        *div = next_div;
        let zero: T = number(eval, 0);
        *p = uniform(cells, zero);

        Self::set_bound(&Bound::Neither, div, dim, eval);
        Self::set_bound(&Bound::Neither, p, dim, eval);
        let strength: T = number(eval, 1);
        let diagonal: T = number(eval, 6);
        Self::lin_solve(&Bound::Neither, p, div, strength, diagonal, iters, dim, eval);

        let ghost wanted_x = corrected(*dim, vel_x@, p@, true, eval);
        let ghost wanted_y = corrected(*dim, vel_y@, p@, false, eval);
        let xs: &Vec<T> = &*vel_x;
        let ys: &Vec<T> = &*vel_y;
        let pressure: &Vec<T> = &*p;
        let next_x: Vec<T> = par_collect(
            cells,
            |i: usize| -> (v: T)
                requires
                    i < cells,
                ensures
                    v == wanted_x[i as int],
                {
                    match Self::neighbors(&i, dim) {
                        Some(near) => corrected_cell(
                            eval,
                            halved,
                            xs[i],
                            pressure[near.right],
                            pressure[near.left],
                        ),
                        None => xs[i],
                    }
                }
        );
        let next_y: Vec<T> = par_collect(
            cells,
            |i: usize| -> (v: T)
                requires
                    i < cells,
                ensures
                    v == wanted_y[i as int],
                {
                    match Self::neighbors(&i, dim) {
                        Some(near) => corrected_cell(
                            eval,
                            halved,
                            ys[i],
                            pressure[near.down],
                            pressure[near.up],
                        ),
                        None => ys[i],
                    }
                }
        );
        assert(next_x@ =~= wanted_x);
        assert(next_y@ =~= wanted_y);
        *vel_x = next_x;
        *vel_y = next_y;

        Self::set_bound(&Bound::X, vel_x, dim, eval);
        Self::set_bound(&Bound::Y, vel_y, dim, eval);
    }
}

} // verus!
