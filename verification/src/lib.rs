//! A lazy arithmetic range producer.
//!
//! A producer is created with a start value, an inclusive stop bound and a
//! step.  Each request for a value returns the current cursor while the
//! cursor has not passed the stop bound, then advances the cursor by the
//! step; once the cursor has passed the bound the producer is exhausted and
//! every further request reports exhaustion.

pub mod gen_range;
pub mod model;
pub mod range;
