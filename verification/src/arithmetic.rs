//! The arithmetic of the solver, as requests to the caller.
//!
//! The solver decides which cell values meet in which formula and builds
//! every formula out of a handful of elementary operations; it never
//! computes with cell values itself. Each operation is an [`Operation`]
//! that it hands to an evaluator supplied by the caller, a function from
//! operations to values of the cell type. A second function of the caller
//! turns a cell value that stands for a grid line into the number of that
//! line. Contracts speak of the value that the evaluator gives for an
//! operation, so they hold for whatever arithmetic the caller brings, as
//! long as it always answers and gives one answer per question.
use vstd::prelude::*;

verus! {

/// One elementary operation, with its operands. The comment on each
/// variant is the value that an evaluator for real-number-like cells is
/// meant to return.
#[derive(Clone, Copy, Debug)]
pub enum Operation<T> {
    /// The whole number `value` as a cell value.
    Whole { value: usize },
    /// `left + right`
    Sum { left: T, right: T },
    /// `left - right`
    Difference { left: T, right: T },
    /// `left * right`
    Product { left: T, right: T },
    /// `left / right`
    Quotient { left: T, right: T },
    /// `-value`
    Negated { value: T },
    /// The cosine of `angle`.
    Cosine { angle: T },
    /// The sine of `angle`.
    Sine { angle: T },
    /// `value`, or `low` where it lies below `low`, or `high` where it lies
    /// above `high`.
    Clamped { value: T, low: T, high: T },
    /// `value` rounded down to a whole number.
    Floor { value: T },
}

/// Whether `eval` can stand for arithmetic: it takes every operation and
/// gives one value for it.
pub open spec fn answers<T, E: Fn(Operation<T>) -> T>(eval: &E) -> bool {
    &&& forall|op: Operation<T>| eval.requires((op,))
    &&& forall|op: Operation<T>, a: T, b: T|
        eval.ensures((op,), a) && eval.ensures((op,), b) ==> a == b
}

/// The value that `eval` gives for `op`.
pub open spec fn value_of<T, E: Fn(Operation<T>) -> T>(eval: &E, op: Operation<T>) -> T {
    choose|r: T| eval.ensures((op,), r)
}

/// Whether `line_of` can stand for reading grid lines off cell values: it
/// takes every value and gives one number for it.
pub open spec fn numbers<T, L: Fn(T) -> usize>(line_of: &L) -> bool {
    &&& forall|v: T| line_of.requires((v,))
    &&& forall|v: T, a: usize, b: usize|
        line_of.ensures((v,), a) && line_of.ensures((v,), b) ==> a == b
}

/// The number that `line_of` gives for `v`.
pub open spec fn line_at<T, L: Fn(T) -> usize>(line_of: &L, v: T) -> usize {
    choose|n: usize| line_of.ensures((v,), n)
}

/// The whole number `n` as a cell value.
pub open spec fn whole<T, E: Fn(Operation<T>) -> T>(eval: &E, n: usize) -> T {
    value_of(eval, Operation::Whole { value: n })
}

/// `a + b`
pub open spec fn sum<T, E: Fn(Operation<T>) -> T>(eval: &E, a: T, b: T) -> T {
    value_of(eval, Operation::Sum { left: a, right: b })
}

/// `a - b`
pub open spec fn difference<T, E: Fn(Operation<T>) -> T>(eval: &E, a: T, b: T) -> T {
    value_of(eval, Operation::Difference { left: a, right: b })
}

/// `a * b`
pub open spec fn product<T, E: Fn(Operation<T>) -> T>(eval: &E, a: T, b: T) -> T {
    value_of(eval, Operation::Product { left: a, right: b })
}

/// `a / b`
pub open spec fn quotient<T, E: Fn(Operation<T>) -> T>(eval: &E, a: T, b: T) -> T {
    value_of(eval, Operation::Quotient { left: a, right: b })
}

/// `-a`
pub open spec fn negated<T, E: Fn(Operation<T>) -> T>(eval: &E, a: T) -> T {
    value_of(eval, Operation::Negated { value: a })
}

/// The cosine of `angle`.
pub open spec fn cosine<T, E: Fn(Operation<T>) -> T>(eval: &E, angle: T) -> T {
    value_of(eval, Operation::Cosine { angle })
}

/// The sine of `angle`.
pub open spec fn sine<T, E: Fn(Operation<T>) -> T>(eval: &E, angle: T) -> T {
    value_of(eval, Operation::Sine { angle })
}

/// `v` held between `low` and `high`.
pub open spec fn clamped<T, E: Fn(Operation<T>) -> T>(eval: &E, v: T, low: T, high: T) -> T {
    value_of(eval, Operation::Clamped { value: v, low, high })
}

/// `v` rounded down.
pub open spec fn floored<T, E: Fn(Operation<T>) -> T>(eval: &E, v: T) -> T {
    value_of(eval, Operation::Floor { value: v })
}

/// One half: one divided by two.
pub open spec fn half<T, E: Fn(Operation<T>) -> T>(eval: &E) -> T {
    quotient(eval, whole(eval, 1), whole(eval, 2))
}

/// Asks the evaluator for the value of one operation.
pub fn ask<T, E: Fn(Operation<T>) -> T>(eval: &E, op: Operation<T>) -> (value: T)
    requires
        answers(eval),
    ensures
        value == value_of(eval, op),
        eval.ensures((op,), value),
{
    eval(op)
}

/// Asks for the number of the grid line that `v` stands for.
pub fn ask_line<T, L: Fn(T) -> usize>(line_of: &L, v: T) -> (line: usize)
    requires
        numbers(line_of),
    ensures
        line == line_at(line_of, v),
        line_of.ensures((v,), line),
{
    line_of(v)
}

/// The whole number `n` as a cell value.
pub fn number<T, E: Fn(Operation<T>) -> T>(eval: &E, n: usize) -> (value: T)
    requires
        answers(eval),
    ensures
        value == whole(eval, n),
{
    ask(eval, Operation::Whole { value: n })
}

/// `a + b`
pub fn plus<T, E: Fn(Operation<T>) -> T>(eval: &E, a: T, b: T) -> (value: T)
    requires
        answers(eval),
    ensures
        value == sum(eval, a, b),
{
    ask(eval, Operation::Sum { left: a, right: b })
}

/// `a - b`
pub fn minus<T, E: Fn(Operation<T>) -> T>(eval: &E, a: T, b: T) -> (value: T)
    requires
        answers(eval),
    ensures
        value == difference(eval, a, b),
{
    ask(eval, Operation::Difference { left: a, right: b })
}

/// `a * b`
pub fn times<T, E: Fn(Operation<T>) -> T>(eval: &E, a: T, b: T) -> (value: T)
    requires
        answers(eval),
    ensures
        value == product(eval, a, b),
{
    ask(eval, Operation::Product { left: a, right: b })
}

/// `a / b`
pub fn over<T, E: Fn(Operation<T>) -> T>(eval: &E, a: T, b: T) -> (value: T)
    requires
        answers(eval),
    ensures
        value == quotient(eval, a, b),
{
    ask(eval, Operation::Quotient { left: a, right: b })
}

/// `-a`
pub fn opposite<T, E: Fn(Operation<T>) -> T>(eval: &E, a: T) -> (value: T)
    requires
        answers(eval),
    ensures
        value == negated(eval, a),
{
    ask(eval, Operation::Negated { value: a })
}

/// One half.
pub fn one_half<T: Copy, E: Fn(Operation<T>) -> T>(eval: &E) -> (value: T)
    requires
        answers(eval),
    ensures
        value == half(eval),
{
    let one: T = number(eval, 1);
    let two: T = number(eval, 2);
    over(eval, one, two)
}

} // verus!
