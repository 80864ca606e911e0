//! What holds of the solver whatever arithmetic the caller brings, and
//! what holds as soon as that arithmetic has a few familiar properties.
use vstd::prelude::*;
use crate::advect::{advected, blend, carried, departure, reach_of, split_at};
use crate::arithmetic::{cosine, difference, product, quotient, sine, sum, whole, Operation};
use crate::boundary::{
    after_corner, after_edges, corner_rules_of, edge_rule_of, enforced, lemma_corner_positions,
    lemma_edge_source_in_grid, Bound,
};
use crate::density::filled;
use crate::flow_box::{faded, stepped, with_density, with_fade, with_velocity, Fields};
use crate::grid::{
    cell_pos, clamp_to, lemma_index_in_range, lemma_sample_in_grid, target_cell, valid_dim,
};
use crate::params::FluidParams;
use crate::project::{corrected, measured, projected};
use crate::relax::{diffusion_diagonal, diffusion_strength, relaxed, swept};
use crate::stencil::{is_inner, lemma_neighbors_offsets};

verus! {

/// Whether adding `first` and then `second` to `held` gives what adding
/// their sum to `held` gives.
pub open spec fn sums_regroup<T, E: Fn(Operation<T>) -> T>(
    eval: &E,
    held: T,
    first: T,
    second: T,
) -> bool {
    sum(eval, sum(eval, held, first), second) == sum(eval, held, sum(eval, first, second))
}

/// Adding one colour and then another at the same point leaves the fields
/// as adding the sum of the two colours leaves them, provided that the
/// sums regroup for what the target cell holds in each channel.
pub proof fn lemma_density_adds_up<T, E: Fn(Operation<T>) -> T>(
    fields: Fields<T>,
    dim: (usize, usize),
    x: usize,
    y: usize,
    first: (T, T, T),
    second: (T, T, T),
    eval: &E,
)
    requires
        valid_dim(dim),
        fields.covers((dim.0 * dim.1) as nat),
        sums_regroup(eval, fields.r[target_cell(x, y, dim)], first.0, second.0),
        sums_regroup(eval, fields.g[target_cell(x, y, dim)], first.1, second.1),
        sums_regroup(eval, fields.b[target_cell(x, y, dim)], first.2, second.2),
    ensures
        with_density(with_density(fields, dim, x, y, first, eval), dim, x, y, second, eval)
            == with_density(
            fields,
            dim,
            x,
            y,
            (
                sum(eval, first.0, second.0),
                sum(eval, first.1, second.1),
                sum(eval, first.2, second.2),
            ),
            eval,
        ),
{
    let at = target_cell(x, y, dim);
    let cx = clamp_to(x as int, dim.0 as int);
    let cy = clamp_to(y as int, dim.1 as int);
    lemma_index_in_range(cx, cy, dim.0 as int, dim.1 as int);
    let once = with_density(fields, dim, x, y, first, eval);
    let twice = with_density(once, dim, x, y, second, eval);
    let both = (
        sum(eval, first.0, second.0),
        sum(eval, first.1, second.1),
        sum(eval, first.2, second.2),
    );
    let together = with_density(fields, dim, x, y, both, eval);
    assert(twice.r =~= together.r);
    assert(twice.g =~= together.g);
    assert(twice.b =~= together.b);
}

/// Multiplying the density by a factor that leaves every value it holds as
/// it is leaves the fields as they are.
pub proof fn lemma_fade_by_one<T, E: Fn(Operation<T>) -> T>(fields: Fields<T>, mag: T, eval: &E)
    requires
        forall|i: int|
            0 <= i < fields.r.len() ==> product(eval, #[trigger] fields.r[i], mag) == fields.r[i],
        forall|i: int|
            0 <= i < fields.g.len() ==> product(eval, #[trigger] fields.g[i], mag) == fields.g[i],
        forall|i: int|
            0 <= i < fields.b.len() ==> product(eval, #[trigger] fields.b[i], mag) == fields.b[i],
    ensures
        with_fade(fields, mag, eval) == fields,
{
    assert(faded(fields.r, mag, eval) =~= fields.r);
    assert(faded(fields.g, mag, eval) =~= fields.g);
    assert(faded(fields.b, mag, eval) =~= fields.b);
}

/// Multiplying the density by a factor that takes every value it holds to
/// `zero` leaves `zero` in every cell of every live density channel, and
/// the other buffers as they are.
pub proof fn lemma_fade_by_zero<T, E: Fn(Operation<T>) -> T>(
    fields: Fields<T>,
    mag: T,
    zero: T,
    eval: &E,
)
    requires
        forall|i: int|
            0 <= i < fields.r.len() ==> product(eval, #[trigger] fields.r[i], mag) == zero,
        forall|i: int|
            0 <= i < fields.g.len() ==> product(eval, #[trigger] fields.g[i], mag) == zero,
        forall|i: int|
            0 <= i < fields.b.len() ==> product(eval, #[trigger] fields.b[i], mag) == zero,
    ensures
        with_fade(fields, mag, eval) == (Fields {
            r: filled(fields.r.len(), zero),
            g: filled(fields.g.len(), zero),
            b: filled(fields.b.len(), zero),
            ..fields
        }),
{
    assert(faded(fields.r, mag, eval) =~= filled(fields.r.len(), zero));
    assert(faded(fields.g, mag, eval) =~= filled(fields.g.len(), zero));
    assert(faded(fields.b, mag, eval) =~= filled(fields.b.len(), zero));
}

/// One call on a flow box that changes its fields.
pub ghost enum Call<T> {
    /// Colour added at a point.
    AddDensity { x: usize, y: usize, color: (T, T, T) },
    /// A push at a point, by its two components.
    AddVelocity { x: usize, y: usize, vx: T, vy: T },
    /// A push at a point, by direction and speed.
    AddVelocityAngleMag { x: usize, y: usize, angle: T, mag: T },
    /// The density multiplied by a factor.
    ScaleDensity { mag: T },
    /// One time step.
    Step { dt: T },
}

/// The fields after one call, as the contract of the method that the call
/// names gives them.
pub open spec fn after_call<T, E: Fn(Operation<T>) -> T, L: Fn(T) -> usize>(
    fields: Fields<T>,
    dim: (usize, usize),
    params: FluidParams<T>,
    call: Call<T>,
    eval: &E,
    line_of: &L,
) -> Fields<T> {
    match call {
        Call::AddDensity { x, y, color } => with_density(fields, dim, x, y, color, eval),
        Call::AddVelocity { x, y, vx, vy } => with_velocity(fields, dim, x, y, vx, vy, eval),
        Call::AddVelocityAngleMag { x, y, angle, mag } => with_velocity(
            fields,
            dim,
            x,
            y,
            product(eval, cosine(eval, angle), mag),
            product(eval, sine(eval, angle), mag),
            eval,
        ),
        Call::ScaleDensity { mag } => with_fade(fields, mag, eval),
        Call::Step { dt } => stepped(fields, dim, params, dt, eval, line_of),
    }
}

/// The fields after a run of calls, the first call first.
pub open spec fn after_calls<T, E: Fn(Operation<T>) -> T, L: Fn(T) -> usize>(
    fields: Fields<T>,
    dim: (usize, usize),
    params: FluidParams<T>,
    calls: Seq<Call<T>>,
    eval: &E,
    line_of: &L,
) -> Fields<T>
    decreases calls.len(),
{
    if calls.len() == 0 {
        fields
    } else {
        after_call(
            after_calls(fields, dim, params, calls.drop_last(), eval, line_of),
            dim,
            params,
            calls.last(),
            eval,
            line_of,
        )
    }
}

/// Two boxes of the same dimensions and parameters that hold the same
/// fields, as two freshly built ones do, hold the same fields again after
/// the same run of calls with the same arithmetic.
pub proof fn lemma_same_calls_same_fields<T, E: Fn(Operation<T>) -> T, L: Fn(T) -> usize>(
    one: Fields<T>,
    other: Fields<T>,
    dim: (usize, usize),
    params: FluidParams<T>,
    calls: Seq<Call<T>>,
    eval: &E,
    line_of: &L,
)
    requires
        one == other,
    ensures
        after_calls(one, dim, params, calls, eval, line_of) == after_calls(
            other,
            dim,
            params,
            calls,
            eval,
            line_of,
        ),
{
}

/// Whether `zero` behaves under the arithmetic of `eval` as the number zero
/// does: it is the whole number nought, any value times it gives it, it
/// plus or less itself gives it, and it divided by any value gives it.
pub open spec fn calm<T, E: Fn(Operation<T>) -> T>(eval: &E, zero: T) -> bool {
    &&& whole(eval, 0) == zero
    &&& forall|by: T| #[trigger] product(eval, by, zero) == zero
    &&& sum(eval, zero, zero) == zero
    &&& difference(eval, zero, zero) == zero
    &&& forall|by: T| #[trigger] quotient(eval, zero, by) == zero
}

/// The boundary pass leaves a field of zeros as it is.
pub proof fn lemma_enforced_at_rest<T, E: Fn(Operation<T>) -> T>(
    bound: Bound,
    dim: (usize, usize),
    zero: T,
    eval: &E,
)
    requires
        valid_dim(dim),
        calm(eval, zero),
    ensures
        enforced(bound, dim, filled((dim.0 * dim.1) as nat, zero), eval) == filled(
            (dim.0 * dim.1) as nat,
            zero,
        ),
{
    let still = filled((dim.0 * dim.1) as nat, zero);
    let walls = after_edges(bound, dim, still, eval);
    assert forall|i: int| 0 <= i < still.len() implies walls[i] == zero by {
        match edge_rule_of(bound, dim, i) {
            Some(rule) => {
                lemma_edge_source_in_grid(bound, dim, i);
            },
            None => {},
        }
    }
    assert(walls =~= still);
    lemma_corner_positions(dim);
    let rules = corner_rules_of(dim);
    let first = after_corner(rules[0], still, eval);
    assert(first =~= still);
    let second = after_corner(rules[1], still, eval);
    assert(second =~= still);
    let third = after_corner(rules[2], still, eval);
    assert(third =~= still);
    let fourth = after_corner(rules[3], still, eval);
    assert(fourth =~= still);
}

/// A sweep leaves a field of zeros with a source term of zeros as it is.
pub proof fn lemma_relaxed_at_rest<T, E: Fn(Operation<T>) -> T>(
    bound: Bound,
    dim: (usize, usize),
    strength: T,
    diagonal: T,
    sweeps: nat,
    zero: T,
    eval: &E,
)
    requires
        valid_dim(dim),
        calm(eval, zero),
    ensures
        relaxed(
            bound,
            dim,
            filled((dim.0 * dim.1) as nat, zero),
            filled((dim.0 * dim.1) as nat, zero),
            strength,
            diagonal,
            sweeps,
            eval,
        ) == filled((dim.0 * dim.1) as nat, zero),
    decreases sweeps,
{
    let still = filled((dim.0 * dim.1) as nat, zero);
    if sweeps > 0 {
        lemma_relaxed_at_rest(bound, dim, strength, diagonal, (sweeps - 1) as nat, zero, eval);
        let next = swept(dim, still, still, strength, diagonal, eval);
        assert forall|i: int| 0 <= i < still.len() implies next[i] == zero by {
            if is_inner(dim, i) {
                lemma_neighbors_offsets(dim, i);
            }
        }
        assert(next =~= still);
        lemma_enforced_at_rest(bound, dim, zero, eval);
    }
}

/// A projection leaves a velocity of zeros at zero, and leaves zeros in
/// its working space, whatever that held before.
pub proof fn lemma_projected_at_rest<T, E: Fn(Operation<T>) -> T>(
    dim: (usize, usize),
    p: Seq<T>,
    iters: usize,
    zero: T,
    eval: &E,
)
    requires
        valid_dim(dim),
        calm(eval, zero),
        p.len() == dim.0 * dim.1,
    ensures
        ({
            let still = filled((dim.0 * dim.1) as nat, zero);
            let done = projected(dim, still, still, p, still, iters, eval);
            &&& done.vel_x == still
            &&& done.vel_y == still
            &&& done.p == still
            &&& done.div == still
        }),
{
    let still = filled((dim.0 * dim.1) as nat, zero);
    let div = measured(dim, still, still, still, eval);
    assert forall|i: int| 0 <= i < still.len() implies div[i] == zero by {
        if is_inner(dim, i) {
            lemma_neighbors_offsets(dim, i);
        }
    }
    assert(div =~= still);
    assert(filled(p.len(), whole(eval, 0)) =~= still);
    lemma_enforced_at_rest(Bound::Neither, dim, zero, eval);
    lemma_enforced_at_rest(Bound::X, dim, zero, eval);
    lemma_enforced_at_rest(Bound::Y, dim, zero, eval);
    lemma_relaxed_at_rest(
        Bound::Neither,
        dim,
        whole(eval, 1),
        whole(eval, 6),
        iters as nat,
        zero,
        eval,
    );
    let along_rows = corrected(dim, still, still, true, eval);
    let along_columns = corrected(dim, still, still, false, eval);
    assert forall|i: int| 0 <= i < still.len() implies along_rows[i] == zero && along_columns[i]
        == zero by {
        if is_inner(dim, i) {
            lemma_neighbors_offsets(dim, i);
        }
    }
    assert(along_rows =~= still);
    assert(along_columns =~= still);
}

/// Advection out of a source of zeros leaves zeros, whatever the flow.
pub proof fn lemma_advected_at_rest<T, E: Fn(Operation<T>) -> T, L: Fn(T) -> usize>(
    bound: Bound,
    dim: (usize, usize),
    field: Seq<T>,
    vel_x: Seq<T>,
    vel_y: Seq<T>,
    dt: T,
    zero: T,
    eval: &E,
    line_of: &L,
)
    requires
        valid_dim(dim),
        calm(eval, zero),
        field.len() == dim.0 * dim.1,
    ensures
        advected(
            bound,
            dim,
            field,
            filled((dim.0 * dim.1) as nat, zero),
            vel_x,
            vel_y,
            dt,
            eval,
            line_of,
        ) == filled((dim.0 * dim.1) as nat, zero),
{
    let still = filled((dim.0 * dim.1) as nat, zero);
    let reach = reach_of(eval, dt);
    let moved = Seq::new(
        field.len(),
        |at: int| carried(dim, still, vel_x, vel_y, reach, at, eval, line_of),
    );
    assert forall|at: int| 0 <= at < still.len() implies moved[at] == zero by {
        let (i, j) = cell_pos(at, dim.0 as int);
        let column = split_at(eval, line_of, departure(eval, i as usize, reach, vel_x[at], dim.0));
        let row = split_at(eval, line_of, departure(eval, j as usize, reach, vel_y[at], dim.1));
        lemma_sample_in_grid(column.lower as int, row.lower as int, dim);
        lemma_sample_in_grid(column.lower as int, row.upper as int, dim);
        lemma_sample_in_grid(column.upper as int, row.lower as int, dim);
        lemma_sample_in_grid(column.upper as int, row.upper as int, dim);
        assert(blend(eval, column, row, zero, zero, zero, zero) == zero);
    }
    assert(moved =~= still);
    lemma_enforced_at_rest(bound, dim, zero, eval);
}

/// A fluid at rest stays at rest: where every cell of every buffer holds
/// `zero` and the arithmetic is calm, a time step leaves every buffer as
/// it is, whatever the parameters and the length of the step.
pub proof fn lemma_step_at_rest<T, E: Fn(Operation<T>) -> T, L: Fn(T) -> usize>(
    dim: (usize, usize),
    params: FluidParams<T>,
    dt: T,
    zero: T,
    eval: &E,
    line_of: &L,
)
    requires
        valid_dim(dim),
        calm(eval, zero),
    ensures
        stepped(Fields::at_rest((dim.0 * dim.1) as nat, zero), dim, params, dt, eval, line_of)
            == Fields::at_rest((dim.0 * dim.1) as nat, zero),
{
    let still = filled((dim.0 * dim.1) as nat, zero);
    let strength = diffusion_strength(eval, dt, params.viscosity);
    lemma_relaxed_at_rest(
        Bound::X,
        dim,
        strength,
        diffusion_diagonal(eval, strength),
        params.diffuse_iters as nat,
        zero,
        eval,
    );
    lemma_relaxed_at_rest(
        Bound::Y,
        dim,
        strength,
        diffusion_diagonal(eval, strength),
        params.diffuse_iters as nat,
        zero,
        eval,
    );
    let spread = diffusion_strength(eval, dt, params.diffusion_rate);
    lemma_relaxed_at_rest(
        Bound::Neither,
        dim,
        spread,
        diffusion_diagonal(eval, spread),
        params.diffuse_iters as nat,
        zero,
        eval,
    );
    lemma_projected_at_rest(dim, still, params.project_iters, zero, eval);
    lemma_advected_at_rest(Bound::X, dim, still, still, still, dt, zero, eval, line_of);
    lemma_advected_at_rest(Bound::Y, dim, still, still, still, dt, zero, eval, line_of);
    lemma_advected_at_rest(Bound::Neither, dim, still, still, still, dt, zero, eval, line_of);
}

} // verus!
