//! The generic range producer, parametric over the element type.

use vstd::prelude::*;

verus! {

/// What a range element type must offer: an order test, an advance by a
/// step, and copy semantics.  `exceeds_spec` and `advanced_spec` are the
/// mathematical meaning of the two operations; `can_advance_spec` bounds
/// the inputs on which the advance is defined (for a machine integer,
/// freedom from overflow).
pub trait Rangeable: Sized + Copy {
    /// Whether `self` lies strictly past `other`.
    spec fn exceeds_spec(self, other: Self) -> bool;

    /// Whether `self` may be advanced by `step`.
    spec fn can_advance_spec(self, step: Self) -> bool;

    /// The value `self` advanced by `step`.
    spec fn advanced_spec(self, step: Self) -> Self;

    /// Decide whether `self` lies strictly past `other`.
    fn exceeds(self, other: Self) -> (r: bool)
        ensures
            r == self.exceeds_spec(other),
    ;

    /// Advance `self` by `step`.
    fn advanced(self, step: Self) -> (r: Self)
        requires
            self.can_advance_spec(step),
        ensures
            r == self.advanced_spec(step),
    ;
}

impl Rangeable for i32 {
    open spec fn exceeds_spec(self, other: Self) -> bool {
        self > other
    }

    open spec fn can_advance_spec(self, step: Self) -> bool {
        i32::MIN <= self + step <= i32::MAX
    }

    open spec fn advanced_spec(self, step: Self) -> Self {
        (self + step) as i32
    }

    fn exceeds(self, other: Self) -> (r: bool) {
        self > other
    }

    fn advanced(self, step: Self) -> (r: Self) {
        self + step
    }
}

impl Rangeable for i64 {
    open spec fn exceeds_spec(self, other: Self) -> bool {
        self > other
    }

    open spec fn can_advance_spec(self, step: Self) -> bool {
        i64::MIN <= self + step <= i64::MAX
    }

    open spec fn advanced_spec(self, step: Self) -> Self {
        (self + step) as i64
    }

    fn exceeds(self, other: Self) -> (r: bool) {
        self > other
    }

    fn advanced(self, step: Self) -> (r: Self) {
        self + step
    }
}

/// A lazy inclusive arithmetic range over any `Rangeable` element type.
/// Behaves exactly as the concrete `i32` producer, modulo the type: the
/// cursor is produced while it does not exceed the stop bound, then
/// advanced by the step; once the cursor exceeds the bound the producer is
/// exhausted for good.  A step that never moves the cursor past the bound
/// is the caller's risk: such a producer never reaches exhaustion.
pub struct GenRangeIter<T: Rangeable> {
    curr: T,
    stop: T,
    step: T,
}

impl<T: Rangeable> GenRangeIter<T> {
    /// The cursor: the value the next request will produce, unless it
    /// already exceeds the stop bound.
    pub closed spec fn cursor(self) -> T {
        self.curr
    }

    /// The inclusive stop bound.
    pub closed spec fn stop_val(self) -> T {
        self.stop
    }

    /// The step the cursor advances by.
    pub closed spec fn step_val(self) -> T {
        self.step
    }

    /// Exhausted: the cursor exceeds the stop bound, and every further
    /// request reports exhaustion.
    pub open spec fn is_exhausted(self) -> bool {
        self.cursor().exceeds_spec(self.stop_val())
    }

    /// Advancing the cursor by the step is defined.
    pub open spec fn can_advance(self) -> bool {
        self.cursor().can_advance_spec(self.step_val())
    }

    /// A producer positioned at `start`, no value yet computed.
    pub fn new(start: T, stop: T, step: T) -> (r: Self)
        ensures
            r.cursor() == start,
            r.stop_val() == stop,
            r.step_val() == step,
    {
        GenRangeIter { curr: start, stop, step }
    }

    /// Produce the next value: the cursor, if it does not exceed the stop
    /// bound, advancing the cursor by the step; `None` once exhausted, the
    /// state then left untouched.
    pub fn produce_next(&mut self) -> (r: Option<T>)
        requires
            !old(self).is_exhausted() ==> old(self).can_advance(),
        ensures
            final(self).stop_val() == old(self).stop_val(),
            final(self).step_val() == old(self).step_val(),
            r is Some <==> !old(self).is_exhausted(),
            old(self).is_exhausted() ==> final(self).cursor() == old(self).cursor(),
            !old(self).is_exhausted() ==> r == Some(old(self).cursor())
                && final(self).cursor() == old(self).cursor().advanced_spec(old(self).step_val()),
    {
        if self.curr.exceeds(self.stop) {
            return None;
        }
        let res = self.curr;
        self.curr = self.curr.advanced(self.step);
        Some(res)
    }
}

} // verus!
