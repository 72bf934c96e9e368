//! The monotonic clock that timestamps are read from, in whole milliseconds
//! since the clock was started.

use std::time::Duration;
use std::time::Instant;
use vstd::prelude::*;

verus! {

/// `std::time::Instant`, an opaque point on the monotonic clock.
#[verifier::external_type_specification]
#[verifier::external_body]
pub struct ExInstant(Instant);

/// `Instant::now` reads the monotonic clock. Nothing is claimed of the
/// value: it differs from call to call.
pub assume_specification[ Instant::now ]() -> (now: Instant)
;

/// `Instant::elapsed` measures the time since the instant was taken.
/// Nothing is claimed of the value: it depends on when the call is made.
pub assume_specification[ Instant::elapsed ](origin: &Instant) -> (elapsed: Duration)
;

/// `Duration::as_millis` gives the whole milliseconds of a duration. A
/// duration is opaque here, so nothing is claimed of the number.
pub assume_specification[ Duration::as_millis ](duration: &Duration) -> (millis: u128)
;

/// `millis`, held at the largest number that fits 64 bits.
pub open spec fn saturated(millis: u128) -> u64 {
    if millis > u64::MAX {
        u64::MAX
    } else {
        millis as u64
    }
}

/// Brings a count of milliseconds into 64 bits, holding it at the largest
/// number that fits.
pub fn saturate_millis(millis: u128) -> (held: u64)
    ensures
        held == saturated(millis),
{
    if millis > 0xffff_ffff_ffff_ffff_u128 {
        u64::MAX
    } else {
        millis as u64
    }
}

/// A monotonic clock that counts milliseconds from the moment it was
/// started.
#[derive(Clone, Copy, Debug)]
pub struct Clock {
    origin: Instant,
}

impl Clock {
    /// Starts a clock at the present moment.
    pub fn start() -> (clock: Clock) {
        Clock { origin: Instant::now() }
    }

    /// The whole milliseconds since the clock was started, saturating at
    /// `u64::MAX`.
    pub fn now_ms(&self) -> (now: u64) {
        let millis: u128 = self.origin.elapsed().as_millis();
        saturate_millis(millis)
    }
}

} // verus!
