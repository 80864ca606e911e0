//! Advection: carrying a field along the flow.
//!
//! Every cell looks back along the velocity at its own place to the point
//! the fluid came from, and takes the blend of the four source cells around
//! that point.
use vstd::prelude::*;
use crate::arithmetic::{
    answers, ask, ask_line, clamped, difference, floored, half, line_at, minus, number, numbers,
    one_half, plus, product, sum, times, whole, Operation,
};
use crate::boundary::{enforced, Bound};
use crate::flow_box::FlowBox;
use crate::grid::{cell_pos, sample_index_of, valid_dim};
use crate::parallel::par_collect;

verus! {

/// A coordinate taken apart into the two grid lines around it.
#[derive(Clone, Copy, Debug)]
pub struct Split<T> {
    /// The number of the grid line below the coordinate.
    pub lower: usize,
    /// The number of the grid line above it.
    pub upper: usize,
    /// How much the lower line weighs: one less the weight of the upper.
    pub lower_weight: T,
    /// How much the upper line weighs: how far the coordinate lies beyond
    /// the lower line.
    pub upper_weight: T,
}

/// How far the flow reaches in a time `dt`, in cells per unit of velocity:
/// the time times one hundred.
pub open spec fn reach_of<T, E: Fn(Operation<T>) -> T>(eval: &E, dt: T) -> T {
    product(eval, dt, whole(eval, 100))
}

/// The coordinate that the fluid in line `cell` came from along an axis of
/// `extent` cells: the line less the reach times the velocity, held
/// between one half and the extent less one half.
pub open spec fn departure<T, E: Fn(Operation<T>) -> T>(
    eval: &E,
    cell: usize,
    reach: T,
    velocity: T,
    extent: usize,
) -> T {
    clamped(
        eval,
        difference(eval, whole(eval, cell), product(eval, reach, velocity)),
        half(eval),
        difference(eval, whole(eval, extent), half(eval)),
    )
}

/// The coordinate `v` taken apart: the lower line is `v` rounded down and
/// the upper line is one more, both read off by `line_of`; the upper line
/// weighs what `v` lies beyond the lower one, and the lower line the rest
/// of one.
pub open spec fn split_at<T, E: Fn(Operation<T>) -> T, L: Fn(T) -> usize>(
    eval: &E,
    line_of: &L,
    v: T,
) -> Split<T> {
    let below = floored(eval, v);
    let above = sum(eval, below, whole(eval, 1));
    let beyond = difference(eval, v, below);
    Split {
        lower: line_at(line_of, below),
        upper: line_at(line_of, above),
        lower_weight: difference(eval, whole(eval, 1), beyond),
        upper_weight: beyond,
    }
}

/// The blend of the four source values around a point: along each axis the
/// values on the lower and on the upper line are weighed by those lines,
/// first down the columns, then across the rows.
pub open spec fn blend<T, E: Fn(Operation<T>) -> T>(
    eval: &E,
    column: Split<T>,
    row: Split<T>,
    lower_lower: T,
    lower_upper: T,
    upper_lower: T,
    upper_upper: T,
) -> T {
    let near = sum(
        eval,
        product(eval, row.lower_weight, lower_lower),
        product(eval, row.upper_weight, lower_upper),
    );
    let far = sum(
        eval,
        product(eval, row.lower_weight, upper_lower),
        product(eval, row.upper_weight, upper_upper),
    );
    sum(eval, product(eval, column.lower_weight, near), product(eval, column.upper_weight, far))
}

/// The value that advection gives the cell at flat position `at`, before
/// the walls are rewritten. The point of departure is found along each
/// axis from the cell's own column or row and the velocity at the cell; it
/// is taken apart into the grid lines around it, and the four source cells
/// where those lines cross are blended by the weights of the lines.
pub open spec fn carried<T, E: Fn(Operation<T>) -> T, L: Fn(T) -> usize>(
    dim: (usize, usize),
    source: Seq<T>,
    vel_x: Seq<T>,
    vel_y: Seq<T>,
    reach: T,
    at: int,
    eval: &E,
    line_of: &L,
) -> T {
    let (i, j) = cell_pos(at, dim.0 as int);
    let column = split_at(eval, line_of, departure(eval, i as usize, reach, vel_x[at], dim.0));
    let row = split_at(eval, line_of, departure(eval, j as usize, reach, vel_y[at], dim.1));
    blend(
        eval,
        column,
        row,
        source[sample_index_of(column.lower as int, row.lower as int, dim)],
        source[sample_index_of(column.lower as int, row.upper as int, dim)],
        source[sample_index_of(column.upper as int, row.lower as int, dim)],
        source[sample_index_of(column.upper as int, row.upper as int, dim)],
    )
}

/// The field after advection: every cell carried, then the walls rewritten.
pub open spec fn advected<T, E: Fn(Operation<T>) -> T, L: Fn(T) -> usize>(
    bound: Bound,
    dim: (usize, usize),
    field: Seq<T>,
    source: Seq<T>,
    vel_x: Seq<T>,
    vel_y: Seq<T>,
    dt: T,
    eval: &E,
    line_of: &L,
) -> Seq<T> {
    let reach = reach_of(eval, dt);
    enforced(
        bound,
        dim,
        Seq::new(
            field.len(),
            |at: int| carried(dim, source, vel_x, vel_y, reach, at, eval, line_of),
        ),
        eval,
    )
}

/// The point of departure along one axis, given one half.
fn depart<T: Copy, E: Fn(Operation<T>) -> T>(
    eval: &E,
    halved: T,
    cell: usize,
    reach: T,
    velocity: T,
    extent: usize,
) -> (from: T)
    requires
        answers(eval),
        halved == half(eval),
    ensures
        from == departure(eval, cell, reach, velocity, extent),
{
    let here: T = number(eval, cell);
    let shift: T = times(eval, reach, velocity);
    let back: T = minus(eval, here, shift);
    let end: T = number(eval, extent);
    let high: T = minus(eval, end, halved);
    ask(eval, Operation::Clamped { value: back, low: halved, high })
}

/// Takes one coordinate apart.
fn split<T: Copy, E: Fn(Operation<T>) -> T, L: Fn(T) -> usize>(
    eval: &E,
    line_of: &L,
    v: T,
) -> (parts: Split<T>)
    requires
        answers(eval),
        numbers(line_of),
    ensures
        parts == split_at(eval, line_of, v),
{
    let one: T = number(eval, 1);
    let below: T = ask(eval, Operation::Floor { value: v });
    let above: T = plus(eval, below, one);
    let beyond: T = minus(eval, v, below);
    let rest: T = minus(eval, one, beyond);
    Split {
        lower: ask_line(line_of, below),
        upper: ask_line(line_of, above),
        lower_weight: rest,
        upper_weight: beyond,
    }
}

/// Blends the four source values around a point.
fn blend_cell<T: Copy, E: Fn(Operation<T>) -> T>(
    eval: &E,
    column: &Split<T>,
    row: &Split<T>,
    lower_lower: T,
    lower_upper: T,
    upper_lower: T,
    upper_upper: T,
) -> (value: T)
    requires
        answers(eval),
    ensures
        value == blend(eval, *column, *row, lower_lower, lower_upper, upper_lower, upper_upper),
{
    let near_low: T = times(eval, row.lower_weight, lower_lower);
    let near_high: T = times(eval, row.upper_weight, lower_upper);
    let near: T = plus(eval, near_low, near_high);
    let far_low: T = times(eval, row.lower_weight, upper_lower);
    let far_high: T = times(eval, row.upper_weight, upper_upper);
    let far: T = plus(eval, far_low, far_high);
    let first: T = times(eval, column.lower_weight, near);
    let second: T = times(eval, column.upper_weight, far);
    plus(eval, first, second)
}

impl<T: Copy + Send + Sync> FlowBox<T> {
    /// Carries `vals0` along the velocity `(vel_x, vel_y)` over a time `dt`
    /// into `vals`. What `vals` held is overwritten in every cell.
    pub fn advect<E: Fn(Operation<T>) -> T + Sync + Send, L: Fn(T) -> usize + Sync + Send>(
        bound: &Bound,
        vals: &mut Vec<T>,
        vals0: &Vec<T>,
        vel_x: &Vec<T>,
        vel_y: &Vec<T>,
        dt: T,
        dim: &(usize, usize),
        eval: &E,
        line_of: &L,
    )
        requires
            valid_dim(*dim),
            old(vals)@.len() == dim.0 * dim.1,
            vals0@.len() == dim.0 * dim.1,
            vel_x@.len() == dim.0 * dim.1,
            vel_y@.len() == dim.0 * dim.1,
            answers(eval),
            numbers(line_of),
        ensures
            final(vals)@ == advected(
                *bound,
                *dim,
                old(vals)@,
                vals0@,
                vel_x@,
                vel_y@,
                dt,
                eval,
                line_of,
            ),
            final(vals)@.len() == old(vals)@.len(),
    {
        let hundred: T = number(eval, 100);
        let reach: T = times(eval, dt, hundred);
        let halved: T = one_half(eval);
        let cells: usize = vals.len();
        let ghost wanted = Seq::new(
            cells as nat,
            |at: int| carried(*dim, vals0@, vel_x@, vel_y@, reach, at, eval, line_of),
        );
        let next: Vec<T> = par_collect(
            cells,
            |at: usize| -> (v: T)
                requires
                    at < cells,
                ensures
                    v == wanted[at as int],
                {
                    let (i, j) = Self::pos(&at, dim);
                    let x: T = depart(eval, halved, i, reach, vel_x[at], dim.0);
                    let y: T = depart(eval, halved, j, reach, vel_y[at], dim.1);
                    let column: Split<T> = split(eval, line_of, x);
                    let row: Split<T> = split(eval, line_of, y);
                    blend_cell(
                        eval,
                        &column,
                        &row,
                        vals0[Self::sample_index(&column.lower, &row.lower, dim)],
                        vals0[Self::sample_index(&column.lower, &row.upper, dim)],
                        vals0[Self::sample_index(&column.upper, &row.lower, dim)],
                        vals0[Self::sample_index(&column.upper, &row.upper, dim)],
                    )
                }
        );
        assert(next@ =~= wanted);
        *vals = next;
        Self::set_bound(bound, vals, dim, eval);
    }
}

} // verus!
