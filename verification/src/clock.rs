//! The monotonic clock. A reading is the number of nanoseconds since the
//! clock was set up; nothing is known of a reading before it is taken.

use crate::error::TimerError;
use std::time::Instant;
use vstd::prelude::*;

verus! {

/// `std::time::Instant`, a point on the monotonic clock of the machine.
/// Nothing inside it is visible here.
#[verifier::external_type_specification]
#[verifier::external_body]
pub struct ExInstant(std::time::Instant);

/// Calls `std::time::Instant::now`. Nothing is claimed of the instant
/// that comes back.
#[verifier::external_body]
fn instant_now() -> Instant {
    Instant::now()
}

/// Calls `Instant::checked_duration_since` on `later` and gives the span
/// from `earlier` in nanoseconds, or nothing where std gives nothing.
/// Nothing is claimed of the result.
#[verifier::external_body]
fn nanos_between(later: &Instant, earlier: &Instant) -> Option<u128> {
    match later.checked_duration_since(*earlier) {
        Some(span) => Some(span.as_nanos()),
        None => None,
    }
}

/// The reading that a span since the clock was made stands for: the span
/// itself, and no reading where the machine gave no span.
pub open spec fn reading_of(span: Option<u128>) -> Result<u128, TimerError> {
    match span {
        Some(nanos) => Ok(nanos),
        None => Err(TimerError::ClockUnavailable),
    }
}

/// A monotonic clock that counts from the moment it was made.
pub struct Clock {
    origin: Instant,
}

impl Clock {
    /// Sets up a clock that starts counting now.
    pub fn new() -> Clock {
        Clock { origin: instant_now() }
    }

    /// Turns what the machine gave as the span since the clock was made
    /// into a reading.
    pub fn reading(span: Option<u128>) -> (r: Result<u128, TimerError>)
        ensures
            r == reading_of(span),
    {
        match span {
            Some(nanos) => Ok(nanos),
            None => Err(TimerError::ClockUnavailable),
        }
    }

    /// Reads the clock. The reading is whatever the machine says; the
    /// call fails only when the machine's clock reads earlier than the
    /// moment this clock was made.
    pub fn now(&self) -> (r: Result<u128, TimerError>)
        ensures
            exists|span: Option<u128>| r == #[trigger] reading_of(span),
            r is Err ==> r->Err_0 == TimerError::ClockUnavailable,
    {
        let current = instant_now();
        let span = nanos_between(&current, &self.origin);
        let r = Self::reading(span);
        assert(r == reading_of(span));
        r
    }
}

} // verus!
