//! The monotonic clock. Its readings depend on when they are taken, so
//! nothing is claimed of them: the code that uses them is verified for every
//! reading.

use vstd::prelude::*;
use std::time::Instant;
use core::time::Duration;

verus! {

/// `std::time::Instant`, carried through the library as an opaque value.
#[verifier::external_type_specification]
#[verifier::external_body]
pub struct ExInstant(Instant);

/// Reads the clock (`Instant::now`). No claim is made of the reading.
#[verifier::external_body]
pub(crate) fn instant_now() -> (r: Instant) {
    Instant::now()
}

/// The time since `start` (`Instant::elapsed`). It depends on the clock;
/// no claim is made of it.
#[verifier::external_body]
pub(crate) fn elapsed_since(start: &Instant) -> (r: Duration) {
    start.elapsed()
}

/// The time since `start` in whole nanoseconds (`Instant::elapsed`, read
/// with `Duration::as_nanos`). It depends on the clock; no claim is made of
/// it.
#[verifier::external_body]
pub(crate) fn nanos_since(start: &Instant) -> (r: u128) {
    start.elapsed().as_nanos()
}

} // verus!
