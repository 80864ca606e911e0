//! Passes over all cells, handed out to a pool of worker threads.
use rayon::iter::{IntoParallelIterator, ParallelIterator};
use vstd::prelude::*;

verus! {

/// Computes `f(0)`, `f(1)`, up to `f(n - 1)` on rayon's thread pool and
/// returns the results in that order.
///
/// This is rayon's `into_par_iter` on the range `0..n`, followed by `map`
/// with `f` and `collect` into a vector. Taken on trust from rayon: `f` is
/// called on indices below `n` only, the vector has `n` entries, and at
/// place `i` it holds what a call of `f` on `i` returned.
#[verifier::external_body]
pub(crate) fn par_collect<T: Send, F: Fn(usize) -> T + Sync + Send>(n: usize, f: F) -> (out: Vec<T>)
    requires
        forall|i: usize| i < n ==> f.requires((i,)),
    ensures
        out@.len() == n,
        forall|i: usize| i < n ==> f.ensures((i,), #[trigger] out@[i as int]),
{
    (0..n).into_par_iter().map(f).collect()
}

} // verus!
