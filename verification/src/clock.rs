//! The monotonic clock of the machine, read in microseconds.

use std::time::Duration;
use std::time::Instant;
use vstd::prelude::*;

verus! {

/// A reading of the monotonic clock. Nothing is known of a reading but that
/// the time between two of them can be measured.
#[verifier::external_type_specification]
#[verifier::external_body]
pub struct ExInstant(Instant);

/// `Instant::now` reads the monotonic clock. What it returns depends on when
/// it is called, so nothing is claimed of it.
pub assume_specification[ Instant::now ]() -> (now: Instant);

/// `Instant::saturating_duration_since` measures the time from `earlier` to
/// `later`, or gives a zero duration if `earlier` is the later one. It never
/// panics. Nothing is claimed of the duration.
pub assume_specification[ Instant::saturating_duration_since ](
    later: &Instant,
    earlier: Instant,
) -> (elapsed: Duration);

/// `Duration::as_micros` gives the whole microseconds in a duration. Nothing
/// is claimed of the number.
pub assume_specification[ Duration::as_micros ](duration: &Duration) -> (micros: u128);

/// A monotonic clock that counts microseconds from the moment it was made.
#[derive(Debug)]
pub struct Clock {
    origin: Instant,
}

impl Clock {
    /// A clock that counts from now.
    pub fn new() -> Clock {
        Clock { origin: Instant::now() }
    }

    /// The microseconds since the clock was made. The number is whatever the
    /// machine's monotonic clock gives.
    pub fn micros(&self) -> u128 {
        Instant::now().saturating_duration_since(self.origin).as_micros()
    }
}

} // verus!
