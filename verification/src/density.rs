//! The three colour channels of the dye carried by the fluid.
use vstd::prelude::*;

verus! {

/// A buffer of `size` cells that all hold `value`.
pub open spec fn filled<T>(size: nat, value: T) -> Seq<T> {
    Seq::new(size, |i: int| value)
}

/// A buffer of `size` cells that all hold `value`.
pub fn uniform<T: Copy>(size: usize, value: T) -> (buffer: Vec<T>)
    ensures
        buffer@ == filled(size as nat, value),
{
    let mut buffer: Vec<T> = Vec::with_capacity(size);
    let mut n: usize = 0;
    while n < size
        invariant
            n <= size,
            buffer@ == filled(n as nat, value),
        decreases size - n,
    {
        buffer.push(value);
        n = n + 1;
        assert(buffer@ =~= filled(n as nat, value));
    }
    buffer
}

/// Colour density per cell, one buffer per channel.
pub struct Density<T> {
    /// Red.
    pub r: Vec<T>,
    /// Green.
    pub g: Vec<T>,
    /// Blue.
    pub b: Vec<T>,
}

impl<T: Copy> Density<T> {
    /// A density of `size` cells in which every channel of every cell
    /// holds `zero`.
    pub fn empty(size: usize, zero: T) -> (density: Self)
        ensures
            density.r@ == filled(size as nat, zero),
            density.g@ == filled(size as nat, zero),
            density.b@ == filled(size as nat, zero),
    {
        Density { r: uniform(size, zero), g: uniform(size, zero), b: uniform(size, zero) }
    }

    /// The three channels one after the other in a single buffer: all of
    /// red, then all of green, then all of blue.
    pub fn zip(&self) -> (buffer: Vec<T>)
        ensures
            buffer@ == self.r@ + self.g@ + self.b@,
    {
        let mut buffer: Vec<T> = Vec::new();
        append(&mut buffer, &self.r);
        append(&mut buffer, &self.g);
        append(&mut buffer, &self.b);
        buffer
    }
}

/// Copies the cells of `channel` to the end of `buffer`.
fn append<T: Copy>(buffer: &mut Vec<T>, channel: &Vec<T>)
    ensures
        final(buffer)@ == old(buffer)@ + channel@,
{
    let ghost before = buffer@;
    let mut n: usize = 0;
    while n < channel.len()
        invariant
            n <= channel.len(),
            buffer@ == before + channel@.subrange(0, n as int),
        decreases channel.len() - n,
    {
        buffer.push(channel[n]);
        n = n + 1;
        assert(buffer@ =~= before + channel@.subrange(0, n as int));
    }
    assert(channel@.subrange(0, n as int) =~= channel@);
}

} // verus!
