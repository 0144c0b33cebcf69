//! What holds of the ledger and its summary whatever the inputs.

use crate::analytics::{all_clock_ok, average_text, closed_count, sum_at, total_at, whole_seconds};
use crate::error::TimerError;
use crate::pt_duration::IntervalView;
use crate::session::{lemma_closed_count_all, lemma_closed_count_push, SessionView};
use crate::text::{hhmmss, NANOS_PER_SEC};
use vstd::prelude::*;

verus! {

/// The session after the toggles at the clock readings `times`, the i-th
/// under the i-th of `tags`. A toggle that fails changes nothing.
pub open spec fn after_toggles(
    s: SessionView,
    tags: Seq<Option<Seq<char>>>,
    times: Seq<nat>,
) -> SessionView
    decreases times.len(),
{
    if times.len() == 0 {
        s
    } else {
        let before = after_toggles(s, tags.drop_last(), times.drop_last());
        if before.toggle_ok(times.last()) {
            before.toggled(tags.last(), times.last())
        } else {
            before
        }
    }
}

/// Clock readings that never go back.
pub open spec fn non_decreasing(times: Seq<nat>) -> bool {
    forall|i: int, j: int| 0 <= i <= j < times.len() ==> times[i] <= times[j]
}

/// The sum of the spans stored in a list of closed intervals.
pub open spec fn stored_sum(s: Seq<IntervalView>) -> nat
    decreases s.len(),
{
    if s.len() == 0 {
        0
    } else {
        stored_sum(s.drop_last()) + match s.last().time_gained {
            Some(span) => span,
            None => 0,
        }
    }
}

/// Whether every interval of the list is closed.
pub open spec fn all_closed(s: Seq<IntervalView>) -> bool {
    forall|i: int| 0 <= i < s.len() ==> !(#[trigger] s[i]).is_open()
}

/// Starting an interval in an idle session keeps the session well formed.
pub proof fn lemma_started_wf(s: SessionView, tag: Option<Seq<char>>, now: nat)
    requires
        s.wf(),
        !s.active,
    ensures
        s.started(tag, now).wf(),
        closed_count(s.started(tag, now).durations) == closed_count(s.durations),
{
    lemma_closed_count_push(s.durations, IntervalView::opened(tag, now));
}

/// Pausing a session that is tracking keeps it well formed and closes one
/// more interval.
pub proof fn lemma_paused_wf(s: SessionView, now: nat)
    requires
        s.wf(),
        s.active,
        s.toggle_ok(now),
    ensures
        s.paused(now).wf(),
        closed_count(s.paused(now).durations) == closed_count(s.durations) + 1,
{
    let after = s.paused(now);
    assert(after.durations.drop_last() =~= s.durations.drop_last());
    lemma_closed_count_all(s.durations.drop_last());
}

proof fn lemma_toggles(s: SessionView, tags: Seq<Option<Seq<char>>>, times: Seq<nat>)
    requires
        s.wf(),
        !s.active,
        tags.len() == times.len(),
        non_decreasing(times),
    ensures
        ({
            let after = after_toggles(s, tags, times);
            &&& after.wf()
            &&& closed_count(after.durations) == closed_count(s.durations) + times.len() / 2
            &&& after.active == (times.len() % 2 == 1)
            &&& after.active ==> after.durations.len() > 0 && after.durations.last().begin == Some(
                times.last(),
            )
        }),
    decreases times.len(),
{
    if times.len() > 0 {
        let earlier = times.drop_last();
        assert(non_decreasing(earlier)) by {
            assert forall|i: int, j: int| 0 <= i <= j < earlier.len() implies earlier[i]
                <= earlier[j] by {
                assert(times[i] <= times[j]);
            }
        }
        lemma_toggles(s, tags.drop_last(), earlier);
        let before = after_toggles(s, tags.drop_last(), earlier);
        let now = times.last();
        if before.active {
            assert(earlier.last() == times[times.len() - 2]);
            assert(times[times.len() - 2] <= times[times.len() - 1]);
            assert(before.toggle_ok(now));
            lemma_paused_wf(before, now);
        } else {
            lemma_started_wf(before, tags.last(), now);
        }
    }
}

/// After N toggles of an idle session, on a clock that never goes back,
/// N / 2 more intervals are closed and one is open exactly when N is odd.
pub proof fn law_toggle_parity(s: SessionView, tags: Seq<Option<Seq<char>>>, times: Seq<nat>)
    requires
        s.wf(),
        !s.active,
        tags.len() == times.len(),
        non_decreasing(times),
    ensures
        after_toggles(s, tags, times).wf(),
        closed_count(after_toggles(s, tags, times).durations) == closed_count(s.durations)
            + times.len() / 2,
        after_toggles(s, tags, times).analytics.count() == s.analytics.count() + times.len() / 2,
        after_toggles(s, tags, times).active == (times.len() % 2 == 1),
{
    lemma_toggles(s, tags, times);
}

/// After N toggles of a new session, on a clock that never goes back,
/// N / 2 intervals are closed and counted, and tracking goes on exactly
/// when N is odd.
pub proof fn law_toggle_parity_from_start(id: u64, tags: Seq<Option<Seq<char>>>, times: Seq<nat>)
    requires
        tags.len() == times.len(),
        non_decreasing(times),
    ensures
        closed_count(after_toggles(SessionView::fresh(id), tags, times).durations) == times.len()
            / 2,
        after_toggles(SessionView::fresh(id), tags, times).analytics.count() == times.len() / 2,
        after_toggles(SessionView::fresh(id), tags, times).active == (times.len() % 2 == 1),
{
    law_toggle_parity(SessionView::fresh(id), tags, times);
}

/// The span of a closed interval does not depend on the clock.
pub proof fn law_elapsed_closed_is_stable(interval: IntervalView, first: nat, second: nat)
    requires
        !interval.is_open(),
    ensures
        interval.clock_ok(first),
        interval.clock_ok(second),
        interval.elapsed_at(first) == interval.elapsed_at(second),
{
}

/// The span of an open interval never shrinks while the clock goes on.
pub proof fn law_elapsed_open_grows(interval: IntervalView, first: nat, second: nat)
    requires
        interval.is_open(),
        interval.clock_ok(first),
        first <= second,
    ensures
        interval.clock_ok(second),
        interval.elapsed_at(first) <= interval.elapsed_at(second),
        interval.elapsed_at(second) - interval.elapsed_at(first) == second - first,
{
}

/// The spans of closed intervals add up to the same sum at every reading
/// of the clock.
pub proof fn lemma_closed_sum(s: Seq<IntervalView>, now: nat)
    requires
        all_closed(s),
    ensures
        all_clock_ok(s, now),
        sum_at(s, now) == stored_sum(s),
    decreases s.len(),
{
    if s.len() > 0 {
        lemma_closed_sum(s.drop_last(), now);
    }
}

/// For closed intervals the total is exactly what was tracked, plus what
/// was added, minus what was subtracted, whatever the clock reads; it is
/// refused only where that number is negative or a sum leaves 128 bits.
pub proof fn law_total_is_exact(
    timed: Seq<IntervalView>,
    additions: Seq<IntervalView>,
    subtractions: Seq<IntervalView>,
    now: nat,
)
    requires
        all_closed(timed),
        all_closed(additions),
        all_closed(subtractions),
    ensures
        ({
            let gained = stored_sum(timed) + stored_sum(additions);
            let lost = stored_sum(subtractions);
            total_at(timed, additions, subtractions, now) == if gained > u128::MAX || lost
                > u128::MAX {
                Err::<nat, TimerError>(TimerError::Overflow)
            } else if lost > gained {
                Err::<nat, TimerError>(TimerError::NegativeTotal)
            } else {
                Ok::<nat, TimerError>((gained - lost) as nat)
            }
        }),
{
    lemma_closed_sum(timed, now);
    lemma_closed_sum(additions, now);
    lemma_closed_sum(subtractions, now);
}

/// There is an average exactly when an interval was completed, and it is
/// the whole seconds of the total over the count, rounded down.
pub proof fn law_average(total: Option<nat>, count: Option<nat>)
    ensures
        average_text(total, count) is None <==> (count is None || count == Some(0nat)),
        count is Some && count->0 > 0 ==> average_text(total, count) == Some(
            hhmmss((whole_seconds(total) / count->0) as nat),
        ),
        total is Some ==> whole_seconds(total) == total->0 / (NANOS_PER_SEC as nat),
{
}

/// Computing the summary again at the same reading of the clock gives the
/// same summary: it depends on the ledger and the clock alone.
pub proof fn law_refresh_is_idempotent(s: SessionView, now: nat)
    requires
        s.total(now) is Ok,
    ensures
        s.refreshed(now).total(now) == s.total(now),
        s.refreshed(now).refreshed(now) == s.refreshed(now),
{
}

} // verus!
