//! The mathematical model of an inclusive arithmetic range: the sequence of
//! cursor values a producer walks through, and the laws that hold of it.

use vstd::prelude::*;

verus! {

/// The sequence of values an inclusive arithmetic range produces: `start`,
/// `start + step`, and so on, ending with the last value that is at most
/// `stop`.  Meaningful only for a positive step; a producer with a zero or
/// negative step never terminates and has no finite value sequence.
pub open spec fn range_seq(start: int, stop: int, step: int) -> Seq<int>
    decreases (if start > stop { 0int } else { stop - start + 1 }) when step >= 1
{
    if start > stop {
        Seq::empty()
    } else {
        seq![start] + range_seq(start + step, stop, step)
    }
}

/// A range whose start exceeds its stop bound produces no values at all.
pub proof fn lemma_range_seq_empty(start: int, stop: int, step: int)
    requires
        step >= 1,
        start > stop,
    ensures
        range_seq(start, stop, step) =~= Seq::<int>::empty(),
{
}

/// A range whose start equals its stop bound produces exactly one value,
/// the start itself.
pub proof fn lemma_range_seq_single(start: int, step: int)
    requires
        step >= 1,
    ensures
        range_seq(start, start, step) =~= seq![start],
{
    assert(range_seq(start + step, start, step) =~= Seq::<int>::empty());
}

/// Successive produced values are strictly increasing, each exactly one
/// step above the one before it.
pub proof fn lemma_range_seq_strictly_increasing(start: int, stop: int, step: int, i: int)
    requires
        step >= 1,
        0 <= i,
        i + 1 < range_seq(start, stop, step).len(),
    ensures
        range_seq(start, stop, step)[i + 1] == range_seq(start, stop, step)[i] + step,
        range_seq(start, stop, step)[i] < range_seq(start, stop, step)[i + 1],
    decreases (if start > stop { 0int } else { stop - start + 1 }),
{
    if start <= stop {
        if i == 0 {
            if start + step <= stop {
                assert(range_seq(start + step, stop, step)[0] == start + step);
            } else {
                assert(range_seq(start + step, stop, step) =~= Seq::<int>::empty());
            }
        } else {
            lemma_range_seq_strictly_increasing(start + step, stop, step, i - 1);
        }
    }
}

} // verus!
