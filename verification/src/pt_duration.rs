//! One interval of tracked time, or one manual adjustment.
//!
//! Every time in this crate is a count of nanoseconds: a reading of the
//! monotonic clock is the count since the clock was set up, a span is the
//! count between two readings.

use crate::error::TimerError;
use vstd::prelude::*;

verus! {

/// Nanoseconds in one minute.
pub const NANOS_PER_MINUTE: u128 = 60_000_000_000;

/// What an interval says, with its tag as a sequence of characters.
#[verifier::ext_equal]
pub struct IntervalView {
    pub tag: Option<Seq<char>>,
    pub time_gained: Option<nat>,
    pub begin: Option<nat>,
    pub end: Option<nat>,
}

impl IntervalView {
    /// An interval is open until a span has been stored in it.
    pub open spec fn is_open(self) -> bool {
        self.time_gained is None
    }

    /// An open interval has a start; an interval that the clock closed holds
    /// exactly the span between its start and its end.
    pub open spec fn wf(self) -> bool {
        &&& self.time_gained is None ==> self.begin is Some && self.end is None
        &&& self.end is Some ==> {
            &&& self.begin is Some
            &&& self.begin->0 <= self.end->0
            &&& self.time_gained == Some((self.end->0 - self.begin->0) as nat)
        }
    }

    /// A tracked interval: well formed, with a start, and an end exactly when
    /// it is closed.
    pub open spec fn is_tracked(self) -> bool {
        &&& self.wf()
        &&& self.begin is Some
        &&& self.time_gained is Some <==> self.end is Some
    }

    /// A manual adjustment: closed from the start, with no tag and no
    /// start or end.
    pub open spec fn is_adjustment(self) -> bool {
        &&& self.tag is None
        &&& self.time_gained is Some
        &&& self.begin is None
        &&& self.end is None
    }

    /// Whether the span of the interval is known when the clock reads `now`:
    /// always for a closed one, for an open one unless the clock reads
    /// earlier than its start.
    pub open spec fn clock_ok(self, now: nat) -> bool {
        self.time_gained is None ==> self.begin is Some && self.begin->0 <= now
    }

    /// The stored span of a closed interval, the span so far of an open one.
    pub open spec fn elapsed_at(self, now: nat) -> nat {
        match self.time_gained {
            Some(span) => span,
            None => if self.begin is Some && self.begin->0 <= now {
                (now - self.begin->0) as nat
            } else {
                0
            },
        }
    }

    /// The open interval that starts at `begin`.
    pub open spec fn opened(tag: Option<Seq<char>>, begin: nat) -> IntervalView {
        IntervalView { tag, time_gained: None, begin: Some(begin), end: None }
    }

    /// This interval closed by the clock at `now`.
    pub open spec fn closed_at(self, now: nat) -> IntervalView {
        IntervalView {
            tag: self.tag,
            time_gained: Some((now - self.begin->0) as nat),
            begin: self.begin,
            end: Some(now),
        }
    }

    /// The adjustment that carries `minutes` minutes.
    pub open spec fn adjustment(minutes: nat) -> IntervalView {
        IntervalView {
            tag: None,
            time_gained: Some(minutes * NANOS_PER_MINUTE as nat),
            begin: None,
            end: None,
        }
    }
}

/// The characters of an optional tag.
pub open spec fn tag_view(tag: Option<String>) -> Option<Seq<char>> {
    match tag {
        Some(t) => Some(t@),
        None => None,
    }
}

/// The value of an optional count of nanoseconds.
pub open spec fn nanos_view(n: Option<u128>) -> Option<nat> {
    match n {
        Some(v) => Some(v as nat),
        None => None,
    }
}

/// A span of time with an optional tag: open while it is being tracked,
/// closed once its length is fixed.
#[derive(Debug)]
pub struct PTDuration {
    tag: Option<String>,
    time_gained: Option<u128>,
    begin: Option<u128>,
    end: Option<u128>,
}

impl View for PTDuration {
    type V = IntervalView;

    closed spec fn view(&self) -> IntervalView {
        IntervalView {
            tag: tag_view(self.tag),
            time_gained: nanos_view(self.time_gained),
            begin: nanos_view(self.begin),
            end: nanos_view(self.end),
        }
    }
}

impl PTDuration {
    /// Opens an interval that starts when the clock reads `begin`.
    pub fn new(tag: Option<String>, begin: u128) -> (r: PTDuration)
        ensures
            r@ == IntervalView::opened(tag_view(tag), begin as nat),
            r@.wf(),
            r@.is_tracked(),
    {
        PTDuration { tag, time_gained: None, begin: Some(begin), end: None }
    }

    /// A closed interval of `minutes` minutes, for adding to or taking from
    /// a total by hand.
    pub fn from_adjustment(minutes: u64) -> (r: PTDuration)
        ensures
            r@ == IntervalView::adjustment(minutes as nat),
            r@.wf(),
            r@.is_adjustment(),
    {
        let nanos: u128 = (minutes as u128) * NANOS_PER_MINUTE;
        PTDuration { tag: None, time_gained: Some(nanos), begin: None, end: None }
    }

    /// Fixes the span of an open interval by hand. A closed interval stays
    /// as it is and the call fails.
    pub fn update_time_gained(&mut self, time_gained: u128) -> (r: Result<(), TimerError>)
        ensures
            r is Ok <==> old(self)@.is_open(),
            r is Ok ==> final(self)@ == (IntervalView {
                time_gained: Some(time_gained as nat),
                ..old(self)@
            }),
            r is Err ==> r == Err::<(), TimerError>(TimerError::AlreadyClosed) && *final(self)
                == *old(self),
            old(self)@.wf() ==> final(self)@.wf(),
    {
        if self.time_gained.is_some() {
            return Err(TimerError::AlreadyClosed);
        }
        self.time_gained = Some(time_gained);
        Ok(())
    }

    /// Closes an open interval when the clock reads `now`, and stores the
    /// span from its start. Fails, and changes nothing, on a closed
    /// interval and on a clock that reads earlier than the start.
    pub fn end(&mut self, now: u128) -> (r: Result<(), TimerError>)
        requires
            old(self)@.wf(),
        ensures
            r is Ok <==> old(self)@.is_open() && old(self)@.clock_ok(now as nat),
            r is Ok ==> final(self)@ == old(self)@.closed_at(now as nat),
            r is Err ==> *final(self) == *old(self),
            !old(self)@.is_open() ==> r == Err::<(), TimerError>(TimerError::AlreadyClosed),
            old(self)@.is_open() && !old(self)@.clock_ok(now as nat) ==> r == Err::<
                (),
                TimerError,
            >(TimerError::ClockWentBackward),
            final(self)@.wf(),
            old(self)@.is_tracked() ==> final(self)@.is_tracked(),
    {
        if self.time_gained.is_some() {
            return Err(TimerError::AlreadyClosed);
        }
        match self.begin {
            Some(begin) => {
                if now < begin {
                    return Err(TimerError::ClockWentBackward);
                }
                self.time_gained = Some(now - begin);
                self.end = Some(now);
                Ok(())
            },
            None => Err(TimerError::ClockWentBackward),
        }
    }

    /// The span of the interval when the clock reads `now`: what was stored
    /// for a closed interval, the time since the start for an open one.
    pub fn elapsed(&self, now: u128) -> (r: Result<u128, TimerError>)
        ensures
            r is Ok <==> self@.clock_ok(now as nat),
            r is Ok ==> r->Ok_0 == self@.elapsed_at(now as nat),
            r is Err ==> r == Err::<u128, TimerError>(TimerError::ClockWentBackward),
    {
        match self.time_gained {
            Some(span) => Ok(span),
            None => match self.begin {
                Some(begin) => if begin <= now {
                    Ok(now - begin)
                } else {
                    Err(TimerError::ClockWentBackward)
                },
                None => Err(TimerError::ClockWentBackward),
            },
        }
    }

    /// Whether the interval is still being tracked.
    pub fn is_open(&self) -> (r: bool)
        ensures
            r == self@.is_open(),
    {
        self.time_gained.is_none()
    }

    /// The tag of the interval.
    pub fn tag(&self) -> (r: &Option<String>)
        ensures
            tag_view(*r) == self@.tag,
    {
        &self.tag
    }

    /// The span stored in the interval, if it is closed.
    pub fn time_gained(&self) -> (r: Option<u128>)
        ensures
            nanos_view(r) == self@.time_gained,
    {
        self.time_gained
    }

    /// The clock reading at which the interval began, if it has one.
    pub fn begin(&self) -> (r: Option<u128>)
        ensures
            nanos_view(r) == self@.begin,
    {
        self.begin
    }

    /// The clock reading at which the interval was closed, if the clock
    /// closed it.
    pub fn end_time(&self) -> (r: Option<u128>)
        ensures
            nanos_view(r) == self@.end,
    {
        self.end
    }
}

} // verus!
