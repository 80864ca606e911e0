//! The container that owns every field of one simulation, and the time step.
use vstd::prelude::*;
use crate::advect::advected;
use crate::arithmetic::{
    answers, ask, cosine, numbers, number, plus, product, sine, sum, times, whole, Operation,
};
use crate::boundary::Bound;
use crate::density::{filled, uniform, Density};
use crate::grid::{target_cell, valid_dim};
use crate::parallel::par_collect;
use crate::params::{default_rate, FluidParams};
use crate::project::projected;
use crate::relax::diffused;

verus! {

/// A box of fluid: a velocity field and a colour density over a grid of
/// cells, each with the scratch buffer that the solver's stages work in.
///
/// Every buffer is flat and row-major and has one entry per cell.
pub struct FlowBox<T> {
    /// Width and height of the grid in cells.
    pub dim: (usize, usize),
    /// Horizontal velocity component.
    pub vel_x: Vec<T>,
    /// Scratch buffer of the horizontal component; injected velocity lands here.
    pub vel_x0: Vec<T>,
    /// Vertical velocity component.
    pub vel_y: Vec<T>,
    /// Scratch buffer of the vertical component; injected velocity lands here.
    pub vel_y0: Vec<T>,
    /// Colour density.
    pub density: Density<T>,
    /// Scratch buffers of the colour density.
    pub density0: Density<T>,
    /// How the fluid behaves.
    pub fluid_params: FluidParams<T>,
}

/// What the ten buffers of a flow box hold.
pub ghost struct Fields<T> {
    /// Horizontal velocity.
    pub vel_x: Seq<T>,
    /// Scratch buffer of the horizontal velocity.
    pub vel_x0: Seq<T>,
    /// Vertical velocity.
    pub vel_y: Seq<T>,
    /// Scratch buffer of the vertical velocity.
    pub vel_y0: Seq<T>,
    /// Red density.
    pub r: Seq<T>,
    /// Green density.
    pub g: Seq<T>,
    /// Blue density.
    pub b: Seq<T>,
    /// Scratch buffer of the red density.
    pub r0: Seq<T>,
    /// Scratch buffer of the green density.
    pub g0: Seq<T>,
    /// Scratch buffer of the blue density.
    pub b0: Seq<T>,
}

impl<T> Fields<T> {
    /// Whether every buffer has `cells` entries.
    pub open spec fn covers(self, cells: nat) -> bool {
        &&& self.vel_x.len() == cells
        &&& self.vel_x0.len() == cells
        &&& self.vel_y.len() == cells
        &&& self.vel_y0.len() == cells
        &&& self.r.len() == cells
        &&& self.g.len() == cells
        &&& self.b.len() == cells
        &&& self.r0.len() == cells
        &&& self.g0.len() == cells
        &&& self.b0.len() == cells
    }

    /// The fields in which every cell of every buffer holds `value`.
    pub open spec fn at_rest(cells: nat, value: T) -> Self {
        Fields {
            vel_x: filled(cells, value),
            vel_x0: filled(cells, value),
            vel_y: filled(cells, value),
            vel_y0: filled(cells, value),
            r: filled(cells, value),
            g: filled(cells, value),
            b: filled(cells, value),
            r0: filled(cells, value),
            g0: filled(cells, value),
            b0: filled(cells, value),
        }
    }
}

/// A buffer after `added` has been added to what cell `at` holds.
pub open spec fn raised<T, E: Fn(Operation<T>) -> T>(
    field: Seq<T>,
    at: int,
    added: T,
    eval: &E,
) -> Seq<T> {
    field.update(at, sum(eval, field[at], added))
}

/// A buffer after every cell has been multiplied by `factor`.
pub open spec fn faded<T, E: Fn(Operation<T>) -> T>(field: Seq<T>, factor: T, eval: &E) -> Seq<T> {
    Seq::new(field.len(), |i: int| product(eval, field[i], factor))
}

/// The fields after the colour `color` has been added at `(x, y)`: the
/// three live density channels are raised in the target cell and nothing
/// else changes.
pub open spec fn with_density<T, E: Fn(Operation<T>) -> T>(
    fields: Fields<T>,
    dim: (usize, usize),
    x: usize,
    y: usize,
    color: (T, T, T),
    eval: &E,
) -> Fields<T> {
    let at = target_cell(x, y, dim);
    Fields {
        r: raised(fields.r, at, color.0, eval),
        g: raised(fields.g, at, color.1, eval),
        b: raised(fields.b, at, color.2, eval),
        ..fields
    }
}

/// The fields after the velocity `(vx, vy)` has been added at `(x, y)`:
/// the two velocity scratch buffers are raised in the target cell, so that
/// the next step takes the push up as a force, and nothing else changes.
pub open spec fn with_velocity<T, E: Fn(Operation<T>) -> T>(
    fields: Fields<T>,
    dim: (usize, usize),
    x: usize,
    y: usize,
    vx: T,
    vy: T,
    eval: &E,
) -> Fields<T> {
    let at = target_cell(x, y, dim);
    Fields {
        vel_x0: raised(fields.vel_x0, at, vx, eval),
        vel_y0: raised(fields.vel_y0, at, vy, eval),
        ..fields
    }
}

/// The fields after the live density has been multiplied by `mag`.
pub open spec fn with_fade<T, E: Fn(Operation<T>) -> T>(
    fields: Fields<T>,
    mag: T,
    eval: &E,
) -> Fields<T> {
    Fields {
        r: faded(fields.r, mag, eval),
        g: faded(fields.g, mag, eval),
        b: faded(fields.b, mag, eval),
        ..fields
    }
}

/// The fields after one time step of length `dt`.
///
/// The velocity is diffused from the live buffers into the scratch
/// buffers, which hold what was injected; the scratch velocity is
/// projected with the live buffers as working space; each component is
/// carried along the scratch velocity back into the live buffers; the live
/// velocity is projected with the scratch buffers as working space. Then
/// every colour channel is diffused into its scratch buffer and carried
/// along the finished velocity back into the live one.
pub open spec fn stepped<T, E: Fn(Operation<T>) -> T, L: Fn(T) -> usize>(
    fields: Fields<T>,
    dim: (usize, usize),
    params: FluidParams<T>,
    dt: T,
    eval: &E,
    line_of: &L,
) -> Fields<T> {
    let spread_x = diffused(
        Bound::X,
        dim,
        fields.vel_x0,
        fields.vel_x,
        params.viscosity,
        dt,
        params.diffuse_iters,
        eval,
    );
    let spread_y = diffused(
        Bound::Y,
        dim,
        fields.vel_y0,
        fields.vel_y,
        params.viscosity,
        dt,
        params.diffuse_iters,
        eval,
    );
    let first = projected(
        dim,
        spread_x,
        spread_y,
        fields.vel_x,
        fields.vel_y,
        params.project_iters,
        eval,
    );
    let moved_x = advected(
        Bound::X,
        dim,
        first.p,
        first.vel_x,
        first.vel_x,
        first.vel_y,
        dt,
        eval,
        line_of,
    );
    let moved_y = advected(
        Bound::Y,
        dim,
        first.div,
        first.vel_y,
        first.vel_x,
        first.vel_y,
        dt,
        eval,
        line_of,
    );
    let second = projected(
        dim,
        moved_x,
        moved_y,
        first.vel_x,
        first.vel_y,
        params.project_iters,
        eval,
    );
    let r0 = diffused(
        Bound::Neither,
        dim,
        fields.r0,
        fields.r,
        params.diffusion_rate,
        dt,
        params.diffuse_iters,
        eval,
    );
    let g0 = diffused(
        Bound::Neither,
        dim,
        fields.g0,
        fields.g,
        params.diffusion_rate,
        dt,
        params.diffuse_iters,
        eval,
    );
    let b0 = diffused(
        Bound::Neither,
        dim,
        fields.b0,
        fields.b,
        params.diffusion_rate,
        dt,
        params.diffuse_iters,
        eval,
    );
    Fields {
        vel_x: second.vel_x,
        vel_x0: second.p,
        vel_y: second.vel_y,
        vel_y0: second.div,
        r: advected(
            Bound::Neither,
            dim,
            fields.r,
            r0,
            second.vel_x,
            second.vel_y,
            dt,
            eval,
            line_of,
        ),
        g: advected(
            Bound::Neither,
            dim,
            fields.g,
            g0,
            second.vel_x,
            second.vel_y,
            dt,
            eval,
            line_of,
        ),
        b: advected(
            Bound::Neither,
            dim,
            fields.b,
            b0,
            second.vel_x,
            second.vel_y,
            dt,
            eval,
            line_of,
        ),
        r0,
        g0,
        b0,
    }
}

impl<T> FlowBox<T> {
    /// What the ten buffers hold.
    pub open spec fn fields(&self) -> Fields<T> {
        Fields {
            vel_x: self.vel_x@,
            vel_x0: self.vel_x0@,
            vel_y: self.vel_y@,
            vel_y0: self.vel_y0@,
            r: self.density.r@,
            g: self.density.g@,
            b: self.density.b@,
            r0: self.density0.r@,
            g0: self.density0.g@,
            b0: self.density0.b@,
        }
    }

    /// Whether the box is in order: its dimensions are ones a solver can
    /// work on and every buffer has exactly one entry per cell.
    pub open spec fn well_formed(&self) -> bool {
        &&& valid_dim(self.dim)
        &&& self.fields().covers((self.dim.0 * self.dim.1) as nat)
    }

    /// Whether the box is in order, for callers that have had their hands
    /// on its buffers.
    pub fn is_well_formed(&self) -> (ok: bool)
        ensures
            ok == self.well_formed(),
    {
        if !Self::accepts(self.dim.0, self.dim.1) {
            return false;
        }
        let cells: usize = self.dim.0 * self.dim.1;
        self.vel_x.len() == cells && self.vel_x0.len() == cells && self.vel_y.len() == cells
            && self.vel_y0.len() == cells && self.density.r.len() == cells
            && self.density.g.len() == cells && self.density.b.len() == cells
            && self.density0.r.len() == cells && self.density0.g.len() == cells
            && self.density0.b.len() == cells
    }

    /// Whether a box of `width` by `height` cells can be built: both are
    /// at least two and the cell count fits the machine word.
    pub fn accepts(width: usize, height: usize) -> (ok: bool)
        ensures
            ok == valid_dim((width, height)),
    {
        if width < 2 || height < 2 {
            false
        } else {
            match width.checked_mul(height) {
                Some(_) => true,
                None => false,
            }
        }
    }
}

impl<T: Copy + Send + Sync> FlowBox<T> {
    /// A box of `width` by `height` cells of the default fluid, at rest and
    /// without colour.
    pub fn init<E: Fn(Operation<T>) -> T>(width: usize, height: usize, eval: &E) -> (flow: Self)
        requires
            valid_dim((width, height)),
            answers(eval),
        ensures
            flow.dim == (width, height),
            flow.fluid_params.viscosity == default_rate(eval),
            flow.fluid_params.diffusion_rate == default_rate(eval),
            flow.fluid_params.diffuse_iters == 3,
            flow.fluid_params.project_iters == 4,
            flow.well_formed(),
            flow.fields() == Fields::at_rest((width * height) as nat, whole(eval, 0)),
    {
        Self::init_with_params(width, height, FluidParams::default(eval), eval)
    }

    /// A box of `width` by `height` cells with the given parameters, at
    /// rest and without colour: every cell of every buffer holds zero.
    pub fn init_with_params<E: Fn(Operation<T>) -> T>(
        width: usize,
        height: usize,
        fluid_params: FluidParams<T>,
        eval: &E,
    ) -> (flow: Self)
        requires
            valid_dim((width, height)),
            answers(eval),
        ensures
            flow.dim == (width, height),
            flow.fluid_params == fluid_params,
            flow.well_formed(),
            flow.fields() == Fields::at_rest((width * height) as nat, whole(eval, 0)),
    {
        let cells: usize = width * height;
        let zero: T = number(eval, 0);
        FlowBox {
            dim: (width, height),
            vel_x: uniform(cells, zero),
            vel_x0: uniform(cells, zero),
            vel_y: uniform(cells, zero),
            vel_y0: uniform(cells, zero),
            density: Density::empty(cells, zero),
            density0: Density::empty(cells, zero),
            fluid_params,
        }
    }

    /// Adds the colour `color` to the density of the cell at `(x, y)`. A
    /// point outside the grid counts as the nearest cell of the grid.
    pub fn add_fluid_density<E: Fn(Operation<T>) -> T>(
        &mut self,
        x: usize,
        y: usize,
        color: (T, T, T),
        eval: &E,
    )
        requires
            old(self).well_formed(),
            answers(eval),
        ensures
            final(self).fields() == with_density(
                old(self).fields(),
                old(self).dim,
                x,
                y,
                color,
                eval,
            ),
            final(self).dim == old(self).dim,
            final(self).fluid_params == old(self).fluid_params,
            final(self).well_formed(),
    {
        let i: usize = Self::cell_at(&x, &y, &self.dim);
        let r: T = plus(eval, self.density.r[i], color.0);
        let g: T = plus(eval, self.density.g[i], color.1);
        let b: T = plus(eval, self.density.b[i], color.2);
        self.density.r.set(i, r);
        self.density.g.set(i, g);
        self.density.b.set(i, b);
    }

    /// Pushes the fluid in the cell at `(x, y)` by the velocity `(vx, vy)`.
    /// The push goes into the scratch buffers, where the next step finds it.
    /// A point outside the grid counts as the nearest cell of the grid.
    pub fn add_fluid_velocity<E: Fn(Operation<T>) -> T>(
        &mut self,
        x: usize,
        y: usize,
        vx: T,
        vy: T,
        eval: &E,
    )
        requires
            old(self).well_formed(),
            answers(eval),
        ensures
            final(self).fields() == with_velocity(
                old(self).fields(),
                old(self).dim,
                x,
                y,
                vx,
                vy,
                eval,
            ),
            final(self).dim == old(self).dim,
            final(self).fluid_params == old(self).fluid_params,
            final(self).well_formed(),
    {
        let i: usize = Self::cell_at(&x, &y, &self.dim);
        let pushed_x: T = plus(eval, self.vel_x0[i], vx);
        let pushed_y: T = plus(eval, self.vel_y0[i], vy);
        self.vel_x0.set(i, pushed_x);
        self.vel_y0.set(i, pushed_y);
    }

    /// Pushes the fluid in the cell at `(x, y)` by a velocity given as a
    /// direction `angle` and a speed `mag`: by the cosine of the angle
    /// times the speed along the rows and by its sine times the speed
    /// along the columns.
    pub fn add_fluid_velocity_angle_mag<E: Fn(Operation<T>) -> T>(
        &mut self,
        x: usize,
        y: usize,
        angle: T,
        mag: T,
        eval: &E,
    )
        requires
            old(self).well_formed(),
            answers(eval),
        ensures
            final(self).fields() == with_velocity(
                old(self).fields(),
                old(self).dim,
                x,
                y,
                product(eval, cosine(eval, angle), mag),
                product(eval, sine(eval, angle), mag),
                eval,
            ),
            final(self).dim == old(self).dim,
            final(self).fluid_params == old(self).fluid_params,
            final(self).well_formed(),
    {
        let along_x: T = ask(eval, Operation::Cosine { angle });
        let along_y: T = ask(eval, Operation::Sine { angle });
        let vx: T = times(eval, along_x, mag);
        let vy: T = times(eval, along_y, mag);
        self.add_fluid_velocity(x, y, vx, vy, eval);
    }

    /// Multiplies the density of every cell by `mag`.
    pub fn scale_fluid_density<E: Fn(Operation<T>) -> T + Sync + Send>(&mut self, mag: T, eval: &E)
        requires
            old(self).well_formed(),
            answers(eval),
        ensures
            final(self).fields() == with_fade(old(self).fields(), mag, eval),
            final(self).dim == old(self).dim,
            final(self).fluid_params == old(self).fluid_params,
            final(self).well_formed(),
    {
        fade(&mut self.density.r, mag, eval);
        fade(&mut self.density.g, mag, eval);
        fade(&mut self.density.b, mag, eval);
    }

    /// Advances the fluid by one time step of length `dt`.
    pub fn step<E: Fn(Operation<T>) -> T + Sync + Send, L: Fn(T) -> usize + Sync + Send>(
        &mut self,
        dt: T,
        eval: &E,
        line_of: &L,
    )
        requires
            old(self).well_formed(),
            answers(eval),
            numbers(line_of),
        ensures
            final(self).fields() == stepped(
                old(self).fields(),
                old(self).dim,
                old(self).fluid_params,
                dt,
                eval,
                line_of,
            ),
            final(self).dim == old(self).dim,
            final(self).fluid_params == old(self).fluid_params,
            final(self).well_formed(),
    {
        let dim: (usize, usize) = self.dim;
        let viscosity: T = self.fluid_params.viscosity;
        let diffusion_rate: T = self.fluid_params.diffusion_rate;
        let diffuse_iters: usize = self.fluid_params.diffuse_iters;
        let project_iters: usize = self.fluid_params.project_iters;

        Self::diffuse(
            &Bound::X,
            &mut self.vel_x0,
            &self.vel_x,
            viscosity,
            dt,
            diffuse_iters,
            &dim,
            eval,
        );
        Self::diffuse(
            &Bound::Y,
            &mut self.vel_y0,
            &self.vel_y,
            viscosity,
            dt,
            diffuse_iters,
            &dim,
            eval,
        );

        Self::project(
            &mut self.vel_x0,
            &mut self.vel_y0,
            &mut self.vel_x,
            &mut self.vel_y,
            project_iters,
            &dim,
            eval,
        );

        Self::advect(
            &Bound::X,
            &mut self.vel_x,
            &self.vel_x0,
            &self.vel_x0,
            &self.vel_y0,
            dt,
            &dim,
            eval,
            line_of,
        );
        Self::advect(
            &Bound::Y,
            &mut self.vel_y,
            &self.vel_y0,
            &self.vel_x0,
            &self.vel_y0,
            dt,
            &dim,
            eval,
            line_of,
        );

        Self::project(
            &mut self.vel_x,
            &mut self.vel_y,
            &mut self.vel_x0,
            &mut self.vel_y0,
            project_iters,
            &dim,
            eval,
        );

        Self::diffuse(
            &Bound::Neither,
            &mut self.density0.r,
            &self.density.r,
            diffusion_rate,
            dt,
            diffuse_iters,
            &dim,
            eval,
        );
        Self::diffuse(
            &Bound::Neither,
            &mut self.density0.g,
            &self.density.g,
            diffusion_rate,
            dt,
            diffuse_iters,
            &dim,
            eval,
        );
        Self::diffuse(
            &Bound::Neither,
            &mut self.density0.b,
            &self.density.b,
            diffusion_rate,
            dt,
            diffuse_iters,
            &dim,
            eval,
        );
        Self::advect(
            &Bound::Neither,
            &mut self.density.r,
            &self.density0.r,
            &self.vel_x,
            &self.vel_y,
            dt,
            &dim,
            eval,
            line_of,
        );
        Self::advect(
            &Bound::Neither,
            &mut self.density.g,
            &self.density0.g,
            &self.vel_x,
            &self.vel_y,
            dt,
            &dim,
            eval,
            line_of,
        );
        Self::advect(
            &Bound::Neither,
            &mut self.density.b,
            &self.density0.b,
            &self.vel_x,
            &self.vel_y,
            dt,
            &dim,
            eval,
            line_of,
        );
    }
}

/// Multiplies every cell of `field` by `factor`.
fn fade<T: Copy + Send + Sync, E: Fn(Operation<T>) -> T + Sync + Send>(
    field: &mut Vec<T>,
    factor: T,
    eval: &E,
)
    requires
        answers(eval),
    ensures
        final(field)@ == faded(old(field)@, factor, eval),
{
    let cells: usize = field.len();
    let ghost wanted = faded(field@, factor, eval);
    let held: &Vec<T> = &*field;
    let next: Vec<T> = par_collect(
        cells,
        |i: usize| -> (v: T)
            requires
                i < cells,
            ensures
                v == wanted[i as int],
            { times(eval, held[i], factor) }
    );
    assert(next@ =~= wanted);
    *field = next;
}

} // verus!
