use std::sync::atomic::{AtomicUsize, Ordering};
use vstd::prelude::*;

verus! {

/// The total that the store holds after adding `step` to `previous`; the
/// addition wraps at the width of a machine word.
pub open spec fn next_total(previous: usize, step: usize) -> usize {
    vstd::wrapping::usize_specs::wrapping_add(previous, step)
}

/// Computes `next_total`: the total that follows `previous` after a call with `step`.
pub fn advance(previous: usize, step: usize) -> (r: usize)
    ensures
        r == next_total(previous, step),
{
    previous.wrapping_add(step)
}

/// The counter store: one integer that starts at zero and is only ever
/// changed by an atomic add, so that any number of threads can share it.
pub struct SequenceGenerator {
    value: AtomicUsize,
}

impl SequenceGenerator {
    /// A store that holds zero.
    pub fn new() -> (r: Self) {
        SequenceGenerator { value: AtomicUsize::new(0) }
    }

    /// Adds `step` to the store in one atomic operation and returns the new
    /// total, `advance` of the value that the add replaced. The result depends
    /// on the calls of other threads, and the atomic's value has no model
    /// here, so nothing is stated of it. `total_after` models a run of calls
    /// taken one after another; the laws below hold of that model, and are
    /// not proved of this function.
    pub fn fetch_add(&self, step: usize) -> (r: usize) {
        let previous = self.value.fetch_add(step, Ordering::SeqCst);
        advance(previous, step)
    }
}

/// Model of the store: the total that a store holding `start` holds after
/// one call for each entry of `steps`, the calls taken one after another.
pub open spec fn total_after(start: usize, steps: Seq<usize>) -> usize
    decreases steps.len(),
{
    if steps.len() == 0 {
        start
    } else {
        next_total(total_after(start, steps.drop_last()), steps.last())
    }
}

/// The value that the `i`-th call of that order returns, counting from one.
pub open spec fn returned(start: usize, steps: Seq<usize>, i: int) -> usize {
    total_after(start, steps.take(i))
}

/// The sum of `steps` as an unbounded integer.
pub open spec fn sum_of(steps: Seq<usize>) -> int
    decreases steps.len(),
{
    if steps.len() == 0 {
        0
    } else {
        sum_of(steps.drop_last()) + steps.last()
    }
}

proof fn lemma_take_next(start: usize, steps: Seq<usize>, i: int)
    requires
        0 <= i < steps.len(),
    ensures
        steps.take(i + 1).drop_last() == steps.take(i),
        steps.take(i + 1).last() == steps[i],
        sum_of(steps.take(i + 1)) == sum_of(steps.take(i)) + steps[i],
        total_after(start, steps.take(i + 1)) == next_total(
            total_after(start, steps.take(i)),
            steps[i],
        ),
{
    assert(steps.take(i + 1).drop_last() =~= steps.take(i));
}

proof fn lemma_sum_grows(steps: Seq<usize>, i: int, j: int)
    requires
        0 <= i <= j <= steps.len(),
    ensures
        sum_of(steps.take(i)) <= sum_of(steps.take(j)),
    decreases j - i,
{
    if i < j {
        lemma_take_next(0, steps, j - 1);
        lemma_sum_grows(steps, i, j - 1);
    }
}

proof fn lemma_total_is_sum(start: usize, steps: Seq<usize>)
    requires
        start + sum_of(steps) <= usize::MAX,
    ensures
        total_after(start, steps) == start + sum_of(steps),
    decreases steps.len(),
{
    if steps.len() > 0 {
        lemma_total_is_sum(start, steps.drop_last());
    }
}

/// In the model, each call returns the total of the call before it plus its
/// step: with a fixed step of at least one, the values of successive calls
/// advance by exactly that step, wrapping at the width of a machine word.
pub proof fn lemma_fixed_step_progression(start: usize, steps: Seq<usize>, step: usize)
    requires
        step >= 1,
        forall|k: int| 0 <= k < steps.len() ==> steps[k] == step,
    ensures
        forall|i: int|
            1 <= i < steps.len() ==> #[trigger] returned(start, steps, i + 1) == next_total(
                returned(start, steps, i),
                step,
            ),
{
    assert forall|i: int| 1 <= i < steps.len() implies #[trigger] returned(start, steps, i + 1)
        == next_total(returned(start, steps, i), step) by {
        lemma_take_next(start, steps, i);
    }
}

/// In the model, two calls return different totals, whatever the steps of
/// the generators that made them, so long as the store has not wrapped by
/// the later call and some call from the earlier one on, before the later,
/// added a step other than zero.
pub proof fn lemma_distinct_totals(start: usize, steps: Seq<usize>, i: int, j: int)
    requires
        1 <= i < j <= steps.len(),
        start + sum_of(steps.take(j)) <= usize::MAX,
        exists|k: int| i <= k < j && steps[k] > 0,
    ensures
        returned(start, steps, i) < returned(start, steps, j),
{
    let k = choose|k: int| i <= k < j && steps[k] > 0;
    lemma_take_next(start, steps, k);
    lemma_sum_grows(steps, i, k);
    lemma_sum_grows(steps, k + 1, j);
    lemma_sum_grows(steps, i, j);
    lemma_total_is_sum(start, steps.take(i));
    lemma_total_is_sum(start, steps.take(j));
}

/// In the model, calls of step one on a store holding `start` return exactly
/// the totals from `start + 1` up to `start` plus the number of calls, one
/// each: no total twice and none skipped, so long as the last fits in a
/// machine word.
pub proof fn lemma_unit_steps_cover(start: usize, steps: Seq<usize>)
    requires
        forall|k: int| 0 <= k < steps.len() ==> steps[k] == 1,
        start + steps.len() <= usize::MAX,
    ensures
        forall|i: int| 1 <= i <= steps.len() ==> #[trigger] returned(start, steps, i) == start + i,
{
    assert forall|i: int| 0 <= i <= steps.len() implies sum_of(#[trigger] steps.take(i)) == i by {
        lemma_unit_sum(steps, i);
    }
    assert forall|i: int| 1 <= i <= steps.len() implies #[trigger] returned(start, steps, i)
        == start + i by {
        lemma_total_is_sum(start, steps.take(i));
    }
}

proof fn lemma_unit_sum(steps: Seq<usize>, i: int)
    requires
        forall|k: int| 0 <= k < steps.len() ==> steps[k] == 1,
        0 <= i <= steps.len(),
    ensures
        sum_of(steps.take(i)) == i,
    decreases i,
{
    if i > 0 {
        lemma_take_next(0, steps, i - 1);
        lemma_unit_sum(steps, i - 1);
    }
}

} // verus!
