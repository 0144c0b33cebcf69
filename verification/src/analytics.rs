//! The summary of a session: total time, number of completed intervals and
//! their average length, all of it derived from the intervals.

use crate::error::TimerError;
use crate::pt_duration::{IntervalView, PTDuration};
use crate::text::{format_instant_to_hhmmss, hhmmss, NANOS_PER_SEC};
use vstd::prelude::*;

verus! {

/// The views of the intervals of a list, in order.
pub open spec fn interval_views(items: Seq<PTDuration>) -> Seq<IntervalView> {
    Seq::new(items.len(), |i: int| items[i]@)
}

/// Whether the span of every interval is known when the clock reads `now`.
pub open spec fn all_clock_ok(s: Seq<IntervalView>, now: nat) -> bool {
    forall|i: int| 0 <= i < s.len() ==> (#[trigger] s[i]).clock_ok(now)
}

/// The sum of the spans of the intervals when the clock reads `now`.
pub open spec fn sum_at(s: Seq<IntervalView>, now: nat) -> nat
    decreases s.len(),
{
    if s.len() == 0 {
        0
    } else {
        sum_at(s.drop_last(), now) + s.last().elapsed_at(now)
    }
}

/// The number of closed intervals.
pub open spec fn closed_count(s: Seq<IntervalView>) -> nat
    decreases s.len(),
{
    if s.len() == 0 {
        0
    } else {
        closed_count(s.drop_last()) + if s.last().is_open() {
            0nat
        } else {
            1nat
        }
    }
}

/// The total of a ledger when the clock reads `now`: what was tracked, plus
/// what was added, minus what was subtracted. It is refused when the clock
/// reads earlier than the start of an open interval, when a sum leaves the
/// range of 128 bits, and when more was subtracted than gained, in this
/// order.
pub open spec fn total_at(
    timed: Seq<IntervalView>,
    additions: Seq<IntervalView>,
    subtractions: Seq<IntervalView>,
    now: nat,
) -> Result<nat, TimerError> {
    let gained = sum_at(timed, now) + sum_at(additions, now);
    let lost = sum_at(subtractions, now);
    if !(all_clock_ok(timed, now) && all_clock_ok(additions, now) && all_clock_ok(
        subtractions,
        now,
    )) {
        Err(TimerError::ClockWentBackward)
    } else if gained > u128::MAX || lost > u128::MAX {
        Err(TimerError::Overflow)
    } else if lost > gained {
        Err(TimerError::NegativeTotal)
    } else {
        Ok((gained - lost) as nat)
    }
}

/// The average length of `count` completed intervals that make up `total`
/// nanoseconds, in whole seconds rounded down and written as `HH:MM:SS`.
/// There is none when nothing was completed.
pub open spec fn average_text(total: Option<nat>, count: Option<nat>) -> Option<Seq<char>> {
    match count {
        Some(c) => if c > 0 {
            Some(hhmmss((whole_seconds(total) / c) as nat))
        } else {
            None
        },
        None => None,
    }
}

/// The whole seconds of a total that may not have been computed yet.
pub open spec fn whole_seconds(total: Option<nat>) -> nat {
    match total {
        Some(t) => t / (NANOS_PER_SEC as nat),
        None => 0,
    }
}

/// How a number of completed intervals is stored: nothing until the first
/// one is completed.
pub open spec fn stored_count(n: nat) -> Option<nat> {
    if n == 0 {
        None
    } else {
        Some(n)
    }
}

/// What a summary says, with its text as a sequence of characters.
#[verifier::ext_equal]
pub struct AnalyticsView {
    pub time_gained: Option<nat>,
    pub duration_avg: Option<Seq<char>>,
    pub duration_count: Option<nat>,
}

impl AnalyticsView {
    /// The summary of a session in which nothing has happened.
    pub open spec fn fresh() -> AnalyticsView {
        AnalyticsView { time_gained: None, duration_avg: None, duration_count: None }
    }

    /// The number of completed intervals.
    pub open spec fn count(self) -> nat {
        match self.duration_count {
            Some(c) => c,
            None => 0,
        }
    }

    /// This summary after one more interval was completed.
    pub open spec fn counted(self) -> AnalyticsView {
        AnalyticsView { duration_count: Some(self.count() + 1), ..self }
    }

    /// This summary with its average brought up to date.
    pub open spec fn averaged(self) -> AnalyticsView {
        AnalyticsView {
            duration_avg: average_text(self.time_gained, self.duration_count),
            ..self
        }
    }
}

/// The running summary of a session.
#[derive(Debug)]
pub struct Analytics {
    time_gained: Option<u128>,
    duration_avg: Option<String>,
    duration_count: Option<u64>,
}

impl View for Analytics {
    type V = AnalyticsView;

    closed spec fn view(&self) -> AnalyticsView {
        AnalyticsView {
            time_gained: match self.time_gained {
                Some(t) => Some(t as nat),
                None => None,
            },
            duration_avg: match self.duration_avg {
                Some(a) => Some(a@),
                None => None,
            },
            duration_count: match self.duration_count {
                Some(c) => Some(c as nat),
                None => None,
            },
        }
    }
}

/// Whether every interval of the list has a known span at `now`.
fn clocks_ok(items: &Vec<PTDuration>, now: u128) -> (r: bool)
    ensures
        r == all_clock_ok(interval_views(items@), now as nat),
{
    let mut i: usize = 0;
    while i < items.len()
        invariant
            i <= items.len(),
            forall|j: int| 0 <= j < i ==> (#[trigger] interval_views(items@)[j]).clock_ok(now as nat),
        decreases items.len() - i,
    {
        match items[i].elapsed(now) {
            Ok(_) => {},
            Err(_) => {
                assert(!interval_views(items@)[i as int].clock_ok(now as nat));
                return false;
            },
        }
        i += 1;
    }
    true
}

/// The sum of the spans of a list, or nothing when it leaves 128 bits.
fn sum_spans(items: &Vec<PTDuration>, now: u128) -> (r: Option<u128>)
    requires
        all_clock_ok(interval_views(items@), now as nat),
    ensures
        match r {
            Some(s) => s == sum_at(interval_views(items@), now as nat),
            None => sum_at(interval_views(items@), now as nat) > u128::MAX,
        },
{
    let ghost views = interval_views(items@);
    let mut acc: Option<u128> = Some(0);
    let mut i: usize = 0;
    while i < items.len()
        invariant
            i <= items.len(),
            views == interval_views(items@),
            all_clock_ok(views, now as nat),
            match acc {
                Some(s) => s == sum_at(views.take(i as int), now as nat),
                None => sum_at(views.take(i as int), now as nat) > u128::MAX,
            },
        decreases items.len() - i,
    {
        proof {
            assert(views.take(i + 1).drop_last() =~= views.take(i as int));
            assert(views.take(i + 1).last() == views[i as int]);
            assert(views[i as int].clock_ok(now as nat));
        }
        let span = match items[i].elapsed(now) {
            Ok(span) => span,
            Err(_) => 0,
        };
        acc = match acc {
            Some(s) => s.checked_add(span),
            None => None,
        };
        i += 1;
    }
    proof {
        assert(views.take(items.len() as int) =~= views);
    }
    acc
}

/// The total of a ledger when the clock reads `now`.
pub fn ledger_total(
    durations: &Vec<PTDuration>,
    additions: &Vec<PTDuration>,
    subtractions: &Vec<PTDuration>,
    now: u128,
) -> (r: Result<u128, TimerError>)
    ensures
        match r {
            Ok(t) => Ok::<nat, TimerError>(t as nat),
            Err(e) => Err::<nat, TimerError>(e),
        } == total_at(
            interval_views(durations@),
            interval_views(additions@),
            interval_views(subtractions@),
            now as nat,
        ),
{
    if !(clocks_ok(durations, now) && clocks_ok(additions, now) && clocks_ok(subtractions, now)) {
        return Err(TimerError::ClockWentBackward);
    }
    let timed = sum_spans(durations, now);
    let added = sum_spans(additions, now);
    let lost = sum_spans(subtractions, now);
    match (timed, added, lost) {
        (Some(t), Some(a), Some(l)) => match t.checked_add(a) {
            Some(gained) => if l > gained {
                Err(TimerError::NegativeTotal)
            } else {
                Ok(gained - l)
            },
            None => Err(TimerError::Overflow),
        },
        _ => Err(TimerError::Overflow),
    }
}

/// The number of closed intervals of a list.
pub fn count_closed(items: &Vec<PTDuration>) -> (r: u64)
    ensures
        r == closed_count(interval_views(items@)),
{
    let ghost views = interval_views(items@);
    let mut n: u64 = 0;
    let mut i: usize = 0;
    while i < items.len()
        invariant
            i <= items.len(),
            views == interval_views(items@),
            n == closed_count(views.take(i as int)),
            n <= i,
        decreases items.len() - i,
    {
        proof {
            assert(views.take(i + 1).drop_last() =~= views.take(i as int));
            assert(views.take(i + 1).last() == views[i as int]);
        }
        if !items[i].is_open() {
            n += 1;
        }
        i += 1;
    }
    proof {
        assert(views.take(items.len() as int) =~= views);
    }
    n
}

impl Analytics {
    /// The summary of a session in which nothing has happened.
    pub fn new() -> (r: Analytics)
        ensures
            r@ == AnalyticsView::fresh(),
    {
        Analytics { time_gained: None, duration_avg: None, duration_count: None }
    }

    /// Computes the whole summary of a ledger when the clock reads `now`:
    /// the total, the number of closed tracked intervals, and the average
    /// of the total over that number.
    pub fn recompute(
        durations: &Vec<PTDuration>,
        additions: &Vec<PTDuration>,
        subtractions: &Vec<PTDuration>,
        now: u128,
    ) -> (r: Result<Analytics, TimerError>)
        ensures
            match total_at(
                interval_views(durations@),
                interval_views(additions@),
                interval_views(subtractions@),
                now as nat,
            ) {
                Ok(total) => r is Ok && r->Ok_0@ == (AnalyticsView {
                    time_gained: Some(total),
                    duration_avg: average_text(
                        Some(total),
                        stored_count(closed_count(interval_views(durations@))),
                    ),
                    duration_count: stored_count(closed_count(interval_views(durations@))),
                }),
                Err(e) => r is Err && r->Err_0 == e,
            },
    {
        let total = ledger_total(durations, additions, subtractions, now)?;
        let closed = count_closed(durations);
        let mut summary = Analytics {
            time_gained: Some(total),
            duration_avg: None,
            duration_count: if closed == 0 {
                None
            } else {
                Some(closed)
            },
        };
        summary.update_duration_avg();
        Ok(summary)
    }

    /// Replaces the total by the total of the ledger when the clock reads
    /// `now`. When the total is refused the summary stays as it was.
    pub fn update_time_gained(
        &mut self,
        durations: &Vec<PTDuration>,
        additions: &Vec<PTDuration>,
        subtractions: &Vec<PTDuration>,
        now: u128,
    ) -> (r: Result<(), TimerError>)
        ensures
            match total_at(
                interval_views(durations@),
                interval_views(additions@),
                interval_views(subtractions@),
                now as nat,
            ) {
                Ok(total) => r is Ok && final(self)@ == (AnalyticsView {
                    time_gained: Some(total),
                    ..old(self)@
                }),
                Err(e) => r is Err && r->Err_0 == e && *final(self) == *old(self),
            },
    {
        let total = ledger_total(durations, additions, subtractions, now)?;
        self.time_gained = Some(total);
        Ok(())
    }

    /// The total as `HH:MM:SS`; a total that was never computed reads
    /// `00:00:00`.
    pub fn get_time_gained_formatted(&self) -> (r: String)
        ensures
            r@ == hhmmss(whole_seconds(self@.time_gained)),
    {
        match self.time_gained {
            Some(v) => format_instant_to_hhmmss(v),
            None => format_instant_to_hhmmss(0),
        }
    }

    /// Counts one more completed interval.
    pub fn update_duration_count(&mut self)
        requires
            old(self)@.count() < u64::MAX,
        ensures
            final(self)@ == old(self)@.counted(),
    {
        let duration_count = match self.duration_count {
            Some(v) => v,
            None => 0,
        };
        self.duration_count = Some(duration_count + 1);
    }

    /// Brings the average up to date: the whole seconds of the total over
    /// the number of completed intervals, rounded down, and no average
    /// while nothing is completed.
    pub fn update_duration_avg(&mut self)
        ensures
            final(self)@ == old(self)@.averaged(),
    {
        let secs: u128 = match self.time_gained {
            Some(t) => t / NANOS_PER_SEC,
            None => 0,
        };
        self.duration_avg = match self.duration_count {
            Some(c) => if c > 0 {
                Some(format_instant_to_hhmmss((secs / (c as u128)) * NANOS_PER_SEC))
            } else {
                None
            },
            None => None,
        };
    }

    /// The total in nanoseconds, if it was computed.
    pub fn time_gained(&self) -> (r: Option<u128>)
        ensures
            crate::pt_duration::nanos_view(r) == self@.time_gained,
    {
        self.time_gained
    }

    /// The number of completed intervals.
    pub fn get_duration_count(&self) -> (r: u64)
        ensures
            r == self@.count(),
    {
        match self.duration_count {
            Some(v) => v,
            None => 0,
        }
    }

    /// The average as `HH:MM:SS`, and `00:00:00` while there is none.
    pub fn get_duration_avg(&self) -> (r: String)
        ensures
            r@ == match self@.duration_avg {
                Some(a) => a,
                None => hhmmss(0),
            },
    {
        match &self.duration_avg {
            Some(a) => a.clone(),
            None => format_instant_to_hhmmss(0),
        }
    }
}

} // verus!
