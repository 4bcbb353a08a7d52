//! The concrete `i32` range producer.

use vstd::prelude::*;

use crate::model::range_seq;

verus! {

/// A lazy inclusive arithmetic range over `i32`.
///
/// Holds a cursor, an inclusive stop bound and a step.  Each request for a
/// value returns the cursor while it has not passed the stop bound, then
/// advances the cursor by the step; once the cursor has passed the bound
/// the producer is exhausted for good.  The cursor is advanced only by the
/// producer itself.  A zero or negative step is the caller's risk: such a
/// producer never reaches exhaustion on its own.
pub struct RangeIter {
    curr: i32,
    stop: i32,
    step: i32,
}

impl RangeIter {
    /// The cursor: the value the next request will produce, unless it has
    /// already passed the stop bound.
    pub closed spec fn cursor(self) -> i32 {
        self.curr
    }

    /// The inclusive stop bound.
    pub closed spec fn stop_val(self) -> i32 {
        self.stop
    }

    /// The step the cursor advances by.
    pub closed spec fn step_val(self) -> i32 {
        self.step
    }

    /// Exhausted: the cursor has passed the stop bound, and every further
    /// request reports exhaustion.
    pub open spec fn is_exhausted(self) -> bool {
        self.cursor() > self.stop_val()
    }

    /// Advancing the cursor by the step stays within `i32`.
    pub open spec fn can_advance(self) -> bool {
        i32::MIN <= self.cursor() + self.step_val() <= i32::MAX
    }

    /// With a positive step, the values this producer has still to yield.
    pub open spec fn remaining(self) -> Seq<int> {
        range_seq(self.cursor() as int, self.stop_val() as int, self.step_val() as int)
    }

    /// A producer positioned at `start`, no value yet computed.
    pub fn new(start: i32, stop: i32, step: i32) -> (r: Self)
        ensures
            r.cursor() == start,
            r.stop_val() == stop,
            r.step_val() == step,
    {
        RangeIter { curr: start, stop, step }
    }

    /// Produce the next value: the cursor, if it has not passed the stop
    /// bound, advancing the cursor by the step; `None` once exhausted, the
    /// state then left untouched.
    pub fn produce_next(&mut self) -> (r: Option<i32>)
        requires
            !old(self).is_exhausted() ==> old(self).can_advance(),
        ensures
            final(self).stop_val() == old(self).stop_val(),
            final(self).step_val() == old(self).step_val(),
            r is Some <==> !old(self).is_exhausted(),
            old(self).is_exhausted() ==> final(self).cursor() == old(self).cursor(),
            !old(self).is_exhausted() ==> r == Some(old(self).cursor())
                && final(self).cursor() == old(self).cursor() + old(self).step_val(),
            old(self).step_val() >= 1 && !old(self).is_exhausted() ==> old(self).remaining()
                == seq![old(self).cursor() as int] + final(self).remaining(),
    {
        if self.curr > self.stop {
            return None;
        }
        let res = self.curr;
        self.curr = self.curr + self.step;
        Some(res)
    }

    /// Run the producer to exhaustion and collect every value it yields,
    /// in production order.
    pub fn produce_all(&mut self) -> (r: Vec<i32>)
        requires
            old(self).step_val() >= 1,
            old(self).stop_val() + old(self).step_val() <= i32::MAX,
        ensures
            final(self).is_exhausted(),
            final(self).stop_val() == old(self).stop_val(),
            final(self).step_val() == old(self).step_val(),
            r@.map_values(|v: i32| v as int) == old(self).remaining(),
    {
        let mut out: Vec<i32> = Vec::new();
        while self.curr <= self.stop
            invariant
                self.step_val() == old(self).step_val(),
                self.stop_val() == old(self).stop_val(),
                self.step_val() >= 1,
                self.stop_val() + self.step_val() <= i32::MAX,
                out@.map_values(|v: i32| v as int) + self.remaining() == old(self).remaining(),
            decreases (if self.is_exhausted() { 0int } else { self.stop_val() - self.cursor() + 1 }),
        {
            let r = self.produce_next();
            match r {
                Some(v) => {
                    out.push(v);
                    assert(out@.map_values(|x: i32| x as int) + self.remaining()
                        =~= old(self).remaining());
                }
                None => {}
            }
        }
        assert(out@.map_values(|v: i32| v as int) + self.remaining()
            =~= out@.map_values(|v: i32| v as int));
        out
    }
}

} // verus!
