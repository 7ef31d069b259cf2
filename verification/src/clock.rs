//! The monotonic clock of the standard library.
//!
//! What the clock reads is not a function of anything the library holds, so
//! nothing here says which value comes back: the verified code is proved for
//! every reading.

use std::time::Instant;
use vstd::prelude::*;
use crate::span::{TimeSpan, NANOS_PER_SEC};

verus! {

/// `std::time::Instant`: a reading of the monotonic clock. The library only
/// stores one and hands it back to the clock; it never looks inside.
#[verifier::external_type_specification]
#[verifier::external_body]
pub struct ExInstant(std::time::Instant);

/// `Instant::now` returns the present reading of the clock. Nothing is
/// claimed of the reading.
pub assume_specification[ std::time::Instant::now ]() -> Instant;

/// `Instant::elapsed` gives the time that has passed since `start` was read,
/// taken apart by `Duration::as_secs` and `Duration::subsec_nanos`. The only
/// claim is the one the standard library documents for `subsec_nanos`: the
/// sub-second part is less than one billion nanoseconds.
#[verifier::external_body]
fn elapsed_parts(start: &Instant) -> (parts: (u64, u32))
    ensures
        parts.1 < NANOS_PER_SEC,
{
    let elapsed = start.elapsed();
    (elapsed.as_secs(), elapsed.subsec_nanos())
}

/// The time that has passed since `start` was read.
pub fn elapsed_since(start: &Instant) -> (elapsed: TimeSpan)
    ensures
        elapsed@.in_range(),
{
    let (secs, nanos) = elapsed_parts(start);
    TimeSpan::new(secs, nanos).unwrap()
}

} // verus!
