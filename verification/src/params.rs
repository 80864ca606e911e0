//! Tuning parameters of the solver.
use vstd::prelude::*;
use crate::arithmetic::{answers, number, over, quotient, whole, Operation};

verus! {

/// Number of relaxation sweeps per diffusion solve unless the caller says otherwise.
pub const DEFAULT_DIFFUSE_ITERS: usize = 3;

/// Number of relaxation sweeps per pressure solve unless the caller says otherwise.
pub const DEFAULT_PROJECT_ITERS: usize = 4;

/// How the fluid behaves: two coefficients in the caller's cell type and the
/// number of relaxation sweeps spent on each kind of solve.
#[derive(Clone, Copy, Debug, PartialEq)]
pub struct FluidParams<T> {
    /// Diffusion coefficient of the velocity field.
    pub viscosity: T,
    /// Diffusion coefficient of the density channels.
    pub diffusion_rate: T,
    /// Relaxation sweeps per diffusion solve.
    pub diffuse_iters: usize,
    /// Relaxation sweeps per pressure solve.
    pub project_iters: usize,
}

/// The viscosity and the diffusion rate of the default fluid.
pub open spec fn default_rate<T, E: Fn(Operation<T>) -> T>(eval: &E) -> T {
    quotient(eval, whole(eval, 5), whole(eval, 100000))
}

impl<T: Copy> FluidParams<T> {
    /// The parameters of the default fluid: a viscosity and a diffusion
    /// rate of five hundred-thousandths each, and the usual sweep counts.
    pub fn default<E: Fn(Operation<T>) -> T>(eval: &E) -> (p: Self)
        requires
            answers(eval),
        ensures
            p.viscosity == default_rate(eval),
            p.diffusion_rate == default_rate(eval),
            p.diffuse_iters == DEFAULT_DIFFUSE_ITERS,
            p.project_iters == DEFAULT_PROJECT_ITERS,
    {
        let parts: T = number(eval, 5);
        let of: T = number(eval, 100000);
        let viscosity: T = over(eval, parts, of);
        let diffusion_rate: T = over(eval, parts, of);
        Self::with_rates(viscosity, diffusion_rate)
    }

    /// Parameters with the given coefficients and the usual sweep counts.
    pub fn with_rates(viscosity: T, diffusion_rate: T) -> (p: Self)
        ensures
            p.viscosity == viscosity,
            p.diffusion_rate == diffusion_rate,
            p.diffuse_iters == DEFAULT_DIFFUSE_ITERS,
            p.project_iters == DEFAULT_PROJECT_ITERS,
    {
        FluidParams {
            viscosity,
            diffusion_rate,
            diffuse_iters: DEFAULT_DIFFUSE_ITERS,
            project_iters: DEFAULT_PROJECT_ITERS,
        }
    }
}

} // verus!
