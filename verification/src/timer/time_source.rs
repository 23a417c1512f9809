//! The monotonic clock of the standard library, as far as a chess clock needs it.
//!
//! Nothing is claimed about what these calls return: a reading depends on
//! when it is taken. The chess clock therefore treats every reading as an
//! arbitrary number of nanoseconds.

use std::time::Duration;
use std::time::Instant;
use vstd::prelude::*;

verus! {

/// `std::time::Instant`, carried through as an opaque value.
#[verifier::external_type_specification]
#[verifier::external_body]
pub struct ExInstant(Instant);

/// `Instant::now`: some reading of the monotonic clock. Nothing is claimed of it.
pub assume_specification[ Instant::now ]() -> (reading: Instant);

/// `Instant::elapsed`: the time that has passed since `earlier` was taken
/// (zero if the clock reads earlier than that). Nothing is claimed of it.
pub assume_specification[ Instant::elapsed ](earlier: &Instant) -> (passed: Duration);

/// `Duration::as_nanos`: the whole duration in nanoseconds. The duration is
/// opaque here, so nothing is claimed of the number.
pub assume_specification[ Duration::as_nanos ](span: &Duration) -> (nanos: u128);

/// Nanoseconds that have passed on the monotonic clock since `origin`.
pub(crate) fn nanos_since(origin: &Instant) -> (nanos: u128) {
    origin.elapsed().as_nanos()
}

} // verus!
