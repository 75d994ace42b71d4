//! The wall clock that paces the serial ports and the vertical blank.
//! Time is counted in nanoseconds from a starting point that each DUART
//! takes when it is made.

use std::time::Instant;
use vstd::prelude::*;

verus! {

#[verifier::external_type_specification]
#[verifier::external_body]
pub struct ExInstant(Instant);

/// `Instant::now`: the present moment. Nothing is claimed of it.
#[verifier::external_body]
pub(crate) fn clock_start() -> (epoch: Instant) {
    Instant::now()
}

/// `Instant::elapsed`, in nanoseconds: the time that has passed since
/// `epoch`. Nothing is claimed of it: two readings may be any two values.
#[verifier::external_body]
pub(crate) fn clock_elapsed(epoch: &Instant) -> (ns: u64) {
    epoch.elapsed().as_nanos() as u64
}

} // verus!
