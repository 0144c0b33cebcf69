//! What can go wrong in the tracking engine.

use vstd::prelude::*;

verus! {

/// Failures reported by the library. The first group rejects bad input and
/// leaves everything as it was; the second reports a broken invariant and
/// stops the one operation that met it.
#[derive(Clone, Copy, Debug, PartialEq, Eq, Structural)]
pub enum TimerError {
    /// An amount of minutes that is not a plain decimal number, or too large.
    InvalidAmount,
    /// A file name that is not one of the timer's channels.
    InvalidFileName,
    /// The pattern library refused the pattern it was given.
    PatternRejected,
    /// No home directory is known for the current user.
    NoHomeDirectory,
    /// A pause was asked for while nothing is being tracked.
    NotTracking,
    /// A start was asked for while an interval is still open.
    AlreadyTracking,
    /// An interval that is already closed cannot be closed again.
    AlreadyClosed,
    /// The session still has an open interval and cannot be saved.
    StillTracking,
    /// The clock reads earlier than the start of an open interval.
    ClockWentBackward,
    /// The clock could not be read.
    ClockUnavailable,
    /// Subtractions exceed what was tracked and added.
    NegativeTotal,
    /// A sum or a count left the range of its type.
    Overflow,
    /// A list of instants of odd length cannot be paired up.
    UnpairedInstant,
}

impl TimerError {
    /// Input that was turned away; nothing was touched.
    pub open spec fn is_validation(self) -> bool {
        self == TimerError::InvalidAmount || self == TimerError::InvalidFileName
            || self == TimerError::PatternRejected
    }

    /// True for errors that reject input, false for broken invariants and
    /// failures of the environment.
    pub fn rejects_input(&self) -> (r: bool)
        ensures
            r == self.is_validation(),
    {
        match self {
            TimerError::InvalidAmount => true,
            TimerError::InvalidFileName => true,
            TimerError::PatternRejected => true,
            _ => false,
        }
    }
}

} // verus!
