use std::sync::Arc;
use vstd::prelude::*;

use crate::counter::{advance, next_total, SequenceGenerator};
use crate::error::Error;

verus! {

/// A source of unique identifiers of type `T`. A failure of the underlying
/// source comes back as the error, with no value put in its place.
pub trait Generator<T> {
    /// Produces a new identifier.
    fn generate(&self) -> Result<T, Error>;

    /// Produces a new identifier and adds `offset` to it. The offset is added
    /// after the identifier is obtained and never reaches shared state.
    fn with_offset(&self, offset: T) -> Result<T, Error>;
}

/// `value` moved by `offset`, wrapping at the width of a machine word.
pub open spec fn word_offset(value: usize, offset: usize) -> usize {
    vstd::wrapping::usize_specs::wrapping_add(value, offset)
}

/// `value` moved by `offset`, wrapping at 128 bits.
pub open spec fn wide_offset(value: u128, offset: u128) -> u128 {
    vstd::wrapping::u128_specs::wrapping_add(value, offset)
}

/// Computes `word_offset`.
pub fn add_word_offset(value: usize, offset: usize) -> (r: usize)
    ensures
        r == word_offset(value, offset),
{
    value.wrapping_add(offset)
}

/// Computes `wide_offset`.
pub fn add_wide_offset(value: u128, offset: u128) -> (r: u128)
    ensures
        r == wide_offset(value, offset),
{
    value.wrapping_add(offset)
}

/// `previous + step + offset` modulo the size of a machine word.
pub open spec fn offset_total(previous: usize, step: usize, offset: usize) -> usize {
    ((previous + step + offset) % (usize::MAX + 1)) as usize
}

/// A call with an offset returns what the same call without one would have
/// returned, plus the offset: the store moves by the step alone, and the
/// offset is added to the value that comes back.
pub proof fn lemma_offset_law(previous: usize, step: usize, offset: usize)
    ensures
        offset_total(previous, step, offset) == word_offset(next_total(previous, step), offset),
{
    let m = usize::MAX + 1;
    let t = previous + step + offset;
    assert(0 <= t < 3 * m);
    if t < m {
        vstd::arithmetic::div_mod::lemma_small_mod(t as nat, m as nat);
    } else if t < 2 * m {
        vstd::arithmetic::div_mod::lemma_small_mod((t - m) as nat, m as nat);
        vstd::arithmetic::div_mod::lemma_mod_sub_multiples_vanish(t, m);
    } else {
        vstd::arithmetic::div_mod::lemma_small_mod((t - 2 * m) as nat, m as nat);
        vstd::arithmetic::div_mod::lemma_mod_sub_multiples_vanish(t, m);
        vstd::arithmetic::div_mod::lemma_mod_sub_multiples_vanish(t - m, m);
    }
}

/// A generator that adds a fixed step to a counter store on each call and
/// returns the new total. Generators built over one store share its sequence,
/// whatever their steps.
pub struct SimpleGenerator {
    step: usize,
    store: Arc<SequenceGenerator>,
}

impl SimpleGenerator {
    /// The fixed amount added to the store on each call.
    pub closed spec fn spec_step(&self) -> usize {
        self.step
    }

    /// A generator with the given step over a store of its own, which starts at
    /// zero. Values are unique only among generators over one store: build
    /// the others with `with_store` to share it.
    pub fn new(step: usize) -> (r: Self)
        ensures
            r.spec_step() == step,
    {
        SimpleGenerator { step, store: Arc::new(SequenceGenerator::new()) }
    }

    /// A generator with the given step over a store that others may share.
    /// Building it leaves the store as it is.
    pub fn with_store(step: usize, store: Arc<SequenceGenerator>) -> (r: Self)
        ensures
            r.spec_step() == step,
    {
        SimpleGenerator { step, store }
    }

    /// The step given at construction.
    pub fn step(&self) -> (r: usize)
        ensures
            r == self.spec_step(),
    {
        self.step
    }

    /// The value that a call returns when the store held `previous` just
    /// before its add took effect.
    pub fn value_after(&self, previous: usize) -> (r: usize)
        ensures
            r == next_total(previous, self.spec_step()),
    {
        advance(previous, self.step)
    }

    /// The value that a call with `offset` returns when the store held
    /// `previous` just before its add took effect: the previous total, the
    /// step and the offset added once, modulo the word.
    pub fn offset_value_after(&self, previous: usize, offset: usize) -> (r: usize)
        ensures
            r == offset_total(previous, self.spec_step(), offset),
    {
        let r = add_word_offset(self.value_after(previous), offset);
        proof {
            lemma_offset_law(previous, self.spec_step(), offset);
        }
        r
    }
}

impl Generator<usize> for SimpleGenerator {
    /// Adds the step to the store and returns the new total. The store
    /// cannot fail.
    fn generate(&self) -> (r: Result<usize, Error>)
        ensures
            r is Ok,
    {
        Ok(self.store.fetch_add(self.step))
    }

    /// Adds the step to the store and returns the new total plus `offset`.
    fn with_offset(&self, offset: usize) -> (r: Result<usize, Error>)
        ensures
            r is Ok,
    {
        Ok(add_word_offset(self.store.fetch_add(self.step), offset))
    }
}

} // verus!
