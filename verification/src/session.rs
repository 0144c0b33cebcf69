//! The ledger of one work session: tracked intervals, additions and
//! subtractions made by hand, and whether tracking is going on.

use crate::analytics::{
    average_text, closed_count, interval_views, ledger_total, stored_count, total_at,
    whole_seconds, Analytics, AnalyticsView,
};
use crate::database::{SessionRecord, SessionRecordView, TagRecord, TagRecordView};
use crate::error::TimerError;
use crate::pt_duration::{tag_view, IntervalView, PTDuration};
use crate::text::{format_instant_to_hhmmss, hhmmss, NANOS_PER_SEC};
use vstd::prelude::*;

verus! {

/// What a session holds, over the views of its parts.
#[verifier::ext_equal]
pub struct SessionView {
    pub id: u64,
    pub durations: Seq<IntervalView>,
    pub additions: Seq<IntervalView>,
    pub subtractions: Seq<IntervalView>,
    pub active: bool,
    pub analytics: AnalyticsView,
    pub tag: Option<Seq<char>>,
}

impl SessionView {
    /// The session with identifier `id` in which nothing has happened.
    pub open spec fn fresh(id: u64) -> SessionView {
        SessionView {
            id,
            durations: Seq::empty(),
            additions: Seq::empty(),
            subtractions: Seq::empty(),
            active: false,
            analytics: AnalyticsView::fresh(),
            tag: None,
        }
    }

    /// At most one interval is open, and it is the last one; tracking is
    /// going on exactly when there is one; the lists of additions and
    /// subtractions hold adjustments only; and the summary counts the
    /// closed intervals.
    pub open spec fn wf(self) -> bool {
        &&& forall|i: int| 0 <= i < self.durations.len() ==> (#[trigger] self.durations[i]).is_tracked()
        &&& forall|i: int|
            0 <= i < self.durations.len() - 1 ==> !(#[trigger] self.durations[i]).is_open()
        &&& self.active <==> self.durations.len() > 0 && self.durations.last().is_open()
        &&& forall|i: int|
            0 <= i < self.additions.len() ==> (#[trigger] self.additions[i]).is_adjustment()
        &&& forall|i: int|
            0 <= i < self.subtractions.len() ==> (#[trigger] self.subtractions[i]).is_adjustment()
        &&& self.analytics.duration_count == stored_count(closed_count(self.durations))
    }

    /// The total of the session when the clock reads `now`.
    pub open spec fn total(self, now: nat) -> Result<nat, TimerError> {
        total_at(self.durations, self.additions, self.subtractions, now)
    }

    /// This session after tracking started at `now`.
    pub open spec fn started(self, tag: Option<Seq<char>>, now: nat) -> SessionView {
        SessionView {
            durations: self.durations.push(IntervalView::opened(tag, now)),
            active: true,
            ..self
        }
    }

    /// This session after tracking paused at `now`: the open interval is
    /// closed and counted, and the average follows the new count.
    pub open spec fn paused(self, now: nat) -> SessionView {
        SessionView {
            durations: self.durations.update(
                self.durations.len() - 1,
                self.durations.last().closed_at(now),
            ),
            active: false,
            analytics: self.analytics.counted().averaged(),
            ..self
        }
    }

    /// Whether a toggle at `now` goes through: always when it starts an
    /// interval, and when it closes one unless the clock reads earlier
    /// than the start of that interval.
    pub open spec fn toggle_ok(self, now: nat) -> bool {
        self.active ==> self.durations.len() > 0 && self.durations.last().clock_ok(now)
    }

    /// This session after one toggle at `now`.
    pub open spec fn toggled(self, tag: Option<Seq<char>>, now: nat) -> SessionView {
        if self.active {
            self.paused(now)
        } else {
            self.started(tag, now)
        }
    }

    /// This session after `minutes` minutes were added by hand.
    pub open spec fn with_addition(self, minutes: nat) -> SessionView {
        SessionView { additions: self.additions.push(IntervalView::adjustment(minutes)), ..self }
    }

    /// This session after `minutes` minutes were taken off by hand.
    pub open spec fn with_subtraction(self, minutes: nat) -> SessionView {
        SessionView {
            subtractions: self.subtractions.push(IntervalView::adjustment(minutes)),
            ..self
        }
    }

    /// This session with its summary computed anew at `now`.
    pub open spec fn refreshed(self, now: nat) -> SessionView {
        SessionView {
            analytics: AnalyticsView {
                time_gained: Some(self.total(now)->Ok_0),
                duration_avg: average_text(
                    Some(self.total(now)->Ok_0),
                    stored_count(closed_count(self.durations)),
                ),
                duration_count: stored_count(closed_count(self.durations)),
            },
            ..self
        }
    }
}

/// Whether the span of every interval with the tag `tag` is known at `now`.
pub open spec fn tag_clock_ok(s: Seq<IntervalView>, tag: Seq<char>, now: nat) -> bool {
    forall|i: int|
        0 <= i < s.len() && (#[trigger] s[i]).tag == Some(tag) ==> s[i].clock_ok(now)
}

/// The sum of the spans at `now` of the intervals with the tag `tag`;
/// intervals with another tag, or with none, add nothing.
pub open spec fn tag_sum_at(s: Seq<IntervalView>, tag: Seq<char>, now: nat) -> nat
    decreases s.len(),
{
    if s.len() == 0 {
        0
    } else {
        tag_sum_at(s.drop_last(), tag, now) + if s.last().tag == Some(tag) {
            s.last().elapsed_at(now)
        } else {
            0
        }
    }
}

/// The time gained under `tag` at `now`, refused when the clock reads
/// earlier than the start of an open interval with that tag, or when the
/// sum leaves 128 bits.
pub open spec fn tag_total(s: Seq<IntervalView>, tag: Seq<char>, now: nat) -> Result<
    nat,
    TimerError,
> {
    if !tag_clock_ok(s, tag, now) {
        Err(TimerError::ClockWentBackward)
    } else if tag_sum_at(s, tag, now) > u128::MAX {
        Err(TimerError::Overflow)
    } else {
        Ok(tag_sum_at(s, tag, now))
    }
}

/// The record of one closed interval of the session `id`.
pub open spec fn interval_record(id: u64, interval: IntervalView) -> TagRecordView {
    TagRecordView {
        session_id: id,
        tag: interval.tag,
        time: hhmmss(whole_seconds(interval.time_gained)),
    }
}

/// The record that a session gives when it is saved.
pub open spec fn session_record(s: SessionView) -> SessionRecordView {
    SessionRecordView {
        total_time: hhmmss(whole_seconds(s.analytics.time_gained)),
        durations_count: s.analytics.count() as u32,
        durations_avg: match s.analytics.duration_avg {
            Some(a) => a,
            None => hhmmss(0),
        },
        session_id: s.id,
        tag: s.tag,
        intervals: Seq::new(s.durations.len(), |i: int| interval_record(s.id, s.durations[i])),
    }
}

/// A closed interval counts one, an open one nothing.
pub proof fn lemma_closed_count_push(s: Seq<IntervalView>, x: IntervalView)
    ensures
        closed_count(s.push(x)) == closed_count(s) + if x.is_open() {
            0nat
        } else {
            1nat
        },
{
    assert(s.push(x).drop_last() =~= s);
}

/// A list of closed intervals counts its length.
pub proof fn lemma_closed_count_all(s: Seq<IntervalView>)
    requires
        forall|i: int| 0 <= i < s.len() ==> !(#[trigger] s[i]).is_open(),
    ensures
        closed_count(s) == s.len(),
    decreases s.len(),
{
    if s.len() > 0 {
        lemma_closed_count_all(s.drop_last());
    }
}

/// In a well-formed session every interval but an open last one is closed.
pub proof fn lemma_closed_count_wf(s: SessionView)
    requires
        s.wf(),
    ensures
        closed_count(s.durations) == s.durations.len() - if s.active {
            1int
        } else {
            0int
        },
{
    if s.durations.len() > 0 {
        lemma_closed_count_all(s.durations.drop_last());
    }
}

/// One work session.
#[derive(Debug)]
pub struct Session {
    id: u64,
    durations: Vec<PTDuration>,
    additions: Vec<PTDuration>,
    subtractions: Vec<PTDuration>,
    active: bool,
    analytics: Analytics,
    tag: Option<String>,
}

impl View for Session {
    type V = SessionView;

    closed spec fn view(&self) -> SessionView {
        SessionView {
            id: self.id,
            durations: interval_views(self.durations@),
            additions: interval_views(self.additions@),
            subtractions: interval_views(self.subtractions@),
            active: self.active,
            analytics: self.analytics@,
            tag: tag_view(self.tag),
        }
    }
}

impl Session {
    /// Whether the session keeps its invariant. Every session that this
    /// library hands out does.
    pub open spec fn wf(&self) -> bool {
        self@.wf()
    }

    /// Begins the session to which the store gave the identifier `id`.
    pub fn new(id: u64) -> (r: Session)
        ensures
            r@ == SessionView::fresh(id),
            r.wf(),
    {
        let r = Session {
            id,
            durations: Vec::new(),
            additions: Vec::new(),
            subtractions: Vec::new(),
            active: false,
            analytics: Analytics::new(),
            tag: None,
        };
        assert(r@ =~= SessionView::fresh(id));
        r
    }

    /// Starts tracking at `now` under `tag`. Fails, and changes nothing,
    /// while an interval is open.
    pub fn record_time(&mut self, tag: Option<String>, now: u128) -> (r: Result<(), TimerError>)
        requires
            old(self).wf(),
        ensures
            final(self).wf(),
            r is Ok <==> !old(self)@.active,
            r is Ok ==> final(self)@ == old(self)@.started(tag_view(tag), now as nat),
            r is Err ==> r == Err::<(), TimerError>(TimerError::AlreadyTracking) && final(self)@
                == old(self)@,
    {
        if self.active {
            return Err(TimerError::AlreadyTracking);
        }
        let ghost before = self@;
        self.durations.push(PTDuration::new(tag, now));
        self.active = true;
        proof {
            assert(self@.durations =~= before.durations.push(
                IntervalView::opened(tag_view(tag), now as nat),
            ));
            assert(self@ =~= before.started(tag_view(tag), now as nat));
            lemma_closed_count_push(
                before.durations,
                IntervalView::opened(tag_view(tag), now as nat),
            );
        }
        Ok(())
    }

    /// Pauses tracking at `now`: closes the open interval, counts it, and
    /// brings the average up to date. Fails, and changes nothing, when no
    /// interval is open and when the clock reads earlier than the start of
    /// the open one.
    pub fn pause(&mut self, now: u128) -> (r: Result<(), TimerError>)
        requires
            old(self).wf(),
        ensures
            final(self).wf(),
            r is Ok <==> old(self)@.active && old(self)@.toggle_ok(now as nat),
            r is Ok ==> final(self)@ == old(self)@.paused(now as nat),
            r is Err ==> final(self)@ == old(self)@,
            !old(self)@.active ==> r == Err::<(), TimerError>(TimerError::NotTracking),
            old(self)@.active && !old(self)@.toggle_ok(now as nat) ==> r == Err::<
                (),
                TimerError,
            >(TimerError::ClockWentBackward),
    {
        if !self.active {
            return Err(TimerError::NotTracking);
        }
        let ghost before = self@;
        let last_index = self.durations.len() - 1;
        if self.durations[last_index].elapsed(now).is_err() {
            return Err(TimerError::ClockWentBackward);
        }
        proof {
            lemma_closed_count_wf(before);
        }
        let mut last = self.durations.pop().unwrap();
        let closed = last.end(now);
        assert(closed is Ok);
        self.durations.push(last);
        self.analytics.update_duration_count();
        self.analytics.update_duration_avg();
        self.active = false;
        proof {
            let after = before.paused(now as nat);
            assert(self@.durations =~= after.durations);
            assert(self@ =~= after);
            assert(after.durations.drop_last() =~= before.durations.drop_last());
            lemma_closed_count_all(before.durations.drop_last());
        }
        Ok(())
    }

    /// The toggle: starts tracking under `tag` when nothing is open, and
    /// pauses when an interval is open. Fails, and changes nothing, only
    /// when it would close an interval that starts after `now`.
    pub fn start_or_pause(&mut self, tag: Option<String>, now: u128) -> (r: Result<
        (),
        TimerError,
    >)
        requires
            old(self).wf(),
        ensures
            final(self).wf(),
            r is Ok <==> old(self)@.toggle_ok(now as nat),
            r is Ok ==> final(self)@ == old(self)@.toggled(tag_view(tag), now as nat),
            r is Err ==> r == Err::<(), TimerError>(TimerError::ClockWentBackward),
            r is Err ==> final(self)@ == old(self)@,
    {
        if self.active {
            self.pause(now)
        } else {
            self.record_time(tag, now)
        }
    }

    /// Adds `minutes` minutes by hand. When the total of the session with
    /// the addition is refused at `now`, the call fails with the reason and
    /// changes nothing.
    pub fn record_addition(&mut self, minutes_to_add: u64, now: u128) -> (r: Result<
        (),
        TimerError,
    >)
        requires
            old(self).wf(),
        ensures
            final(self).wf(),
            match old(self)@.with_addition(minutes_to_add as nat).total(now as nat) {
                Ok(_) => r is Ok && final(self)@ == old(self)@.with_addition(
                    minutes_to_add as nat,
                ),
                Err(e) => r == Err::<(), TimerError>(e) && final(self)@ == old(self)@,
            },
    {
        let ghost before = self@;
        self.additions.push(PTDuration::from_adjustment(minutes_to_add));
        proof {
            assert(self@.additions =~= before.additions.push(
                IntervalView::adjustment(minutes_to_add as nat),
            ));
            assert(self@ =~= before.with_addition(minutes_to_add as nat));
        }
        match ledger_total(&self.durations, &self.additions, &self.subtractions, now) {
            Ok(_) => Ok(()),
            Err(e) => {
                self.additions.pop();
                proof {
                    assert(self@.additions =~= before.additions);
                    assert(self@ =~= before);
                }
                Err(e)
            },
        }
    }

    /// Takes `minutes` minutes off by hand. When the total of the session
    /// with the subtraction is refused at `now` (it would be negative, for
    /// one), the call fails with the reason and changes nothing.
    pub fn record_subtraction(&mut self, minutes_to_subtract: u64, now: u128) -> (r: Result<
        (),
        TimerError,
    >)
        requires
            old(self).wf(),
        ensures
            final(self).wf(),
            match old(self)@.with_subtraction(minutes_to_subtract as nat).total(now as nat) {
                Ok(_) => r is Ok && final(self)@ == old(self)@.with_subtraction(
                    minutes_to_subtract as nat,
                ),
                Err(e) => r == Err::<(), TimerError>(e) && final(self)@ == old(self)@,
            },
    {
        let ghost before = self@;
        self.subtractions.push(PTDuration::from_adjustment(minutes_to_subtract));
        proof {
            assert(self@.subtractions =~= before.subtractions.push(
                IntervalView::adjustment(minutes_to_subtract as nat),
            ));
            assert(self@ =~= before.with_subtraction(minutes_to_subtract as nat));
        }
        match ledger_total(&self.durations, &self.additions, &self.subtractions, now) {
            Ok(_) => Ok(()),
            Err(e) => {
                self.subtractions.pop();
                proof {
                    assert(self@.subtractions =~= before.subtractions);
                    assert(self@ =~= before);
                }
                Err(e)
            },
        }
    }

    /// Computes the summary anew when the clock reads `now`. When the
    /// total is refused the call fails with the reason and changes nothing.
    pub fn update_time_gained(&mut self, now: u128) -> (r: Result<(), TimerError>)
        requires
            old(self).wf(),
        ensures
            final(self).wf(),
            match old(self)@.total(now as nat) {
                Ok(_) => r is Ok && final(self)@ == old(self)@.refreshed(now as nat),
                Err(e) => r == Err::<(), TimerError>(e) && final(self)@ == old(self)@,
            },
    {
        match Analytics::recompute(&self.durations, &self.additions, &self.subtractions, now) {
            Ok(summary) => {
                self.analytics = summary;
                Ok(())
            },
            Err(e) => Err(e),
        }
    }

    /// Drops every interval and adjustment, the summary and the tag, stops
    /// tracking, and goes on as the session `id`.
    pub fn reset(&mut self, id: u64)
        ensures
            final(self)@ == SessionView::fresh(id),
            final(self).wf(),
    {
        self.id = id;
        self.durations = Vec::new();
        self.additions = Vec::new();
        self.subtractions = Vec::new();
        self.active = false;
        self.analytics = Analytics::new();
        self.tag = None;
        assert(self@ =~= SessionView::fresh(id));
    }

    /// Gives the session its tag.
    pub fn set_tag(&mut self, tag: Option<String>)
        ensures
            final(self)@ == (SessionView { tag: tag_view(tag), ..old(self)@ }),
            old(self).wf() ==> final(self).wf(),
    {
        self.tag = tag;
    }

    /// The time gained under `tag` when the clock reads `now`, as
    /// `HH:MM:SS`: closed intervals with that tag give their span, an open
    /// one gives the time since its start, and every other interval gives
    /// nothing.
    pub fn get_tag_time_gained(&self, tag: String, now: u128) -> (r: Result<String, TimerError>)
        ensures
            match tag_total(self@.durations, tag@, now as nat) {
                Ok(t) => r is Ok && r->Ok_0@ == hhmmss(t / (NANOS_PER_SEC as nat)),
                Err(e) => r is Err && r->Err_0 == e,
            },
    {
        let ghost views = interval_views(self.durations@);
        let ghost mut bad: int = 0;
        let mut backward = false;
        let mut acc: Option<u128> = Some(0);
        let mut i: usize = 0;
        while i < self.durations.len()
            invariant
                i <= self.durations.len(),
                views == interval_views(self.durations@),
                backward ==> 0 <= bad < i && views[bad].tag == Some(tag@) && !views[bad].clock_ok(
                    now as nat,
                ),
                !backward ==> tag_clock_ok(views.take(i as int), tag@, now as nat),
                match acc {
                    Some(s) => s == tag_sum_at(views.take(i as int), tag@, now as nat),
                    None => tag_sum_at(views.take(i as int), tag@, now as nat) > u128::MAX,
                },
            decreases self.durations.len() - i,
        {
            proof {
                assert(views.take(i + 1).drop_last() =~= views.take(i as int));
                assert(views.take(i + 1).last() == views[i as int]);
            }
            let same_tag = match self.durations[i].tag() {
                Some(t) => *t == tag,
                None => false,
            };
            assert(same_tag == (views[i as int].tag == Some(tag@)));
            if same_tag {
                match self.durations[i].elapsed(now) {
                    Ok(span) => {
                        acc = match acc {
                            Some(s) => s.checked_add(span),
                            None => None,
                        };
                    },
                    Err(_) => {
                        if !backward {
                            proof {
                                bad = i as int;
                            }
                        }
                        backward = true;
                    },
                }
            }
            proof {
                if !backward {
                    assert forall|j: int|
                        0 <= j < views.take(i + 1).len() && (#[trigger] views.take(i + 1)[j]).tag
                            == Some(tag@) implies views.take(i + 1)[j].clock_ok(now as nat) by {
                        if j < i {
                            assert(views.take(i as int)[j] == views.take(i + 1)[j]);
                        }
                    }
                }
            }
            i += 1;
        }
        proof {
            assert(views.take(self.durations.len() as int) =~= views);
        }
        if backward {
            Err(TimerError::ClockWentBackward)
        } else {
            match acc {
                Some(total) => Ok(format_instant_to_hhmmss(total)),
                None => Err(TimerError::Overflow),
            }
        }
    }

    /// The record of the session for the store: the total, the count and
    /// the average as they were last computed, and one entry for each
    /// tracked interval with its tag and its span. A session that is still
    /// tracking is not saved, nor one with more completed intervals than
    /// the store's 32-bit count can hold.
    pub fn save_session(&self) -> (r: Result<SessionRecord, TimerError>)
        ensures
            self@.active ==> r is Err && r->Err_0 == TimerError::StillTracking,
            !self@.active && self@.analytics.count() > u32::MAX ==> r is Err && r->Err_0
                == TimerError::Overflow,
            !self@.active && self@.analytics.count() <= u32::MAX ==> r is Ok && r->Ok_0@
                == session_record(self@),
    {
        if self.active {
            return Err(TimerError::StillTracking);
        }
        let count = self.analytics.get_duration_count();
        if count > u32::MAX as u64 {
            return Err(TimerError::Overflow);
        }
        let ghost views = interval_views(self.durations@);
        let mut intervals: Vec<TagRecord> = Vec::new();
        let mut i: usize = 0;
        while i < self.durations.len()
            invariant
                i <= self.durations.len(),
                views == interval_views(self.durations@),
                intervals@.len() == i,
                forall|j: int|
                    0 <= j < i ==> (#[trigger] intervals@[j])@ == interval_record(self.id, views[j]),
            decreases self.durations.len() - i,
        {
            let span = match self.durations[i].time_gained() {
                Some(v) => v,
                None => 0,
            };
            let tag = match self.durations[i].tag() {
                Some(t) => Some(t.clone()),
                None => None,
            };
            let record = TagRecord {
                session_id: self.id,
                tag,
                time: format_instant_to_hhmmss(span),
            };
            assert(record@ =~= interval_record(self.id, views[i as int]));
            intervals.push(record);
            i += 1;
        }
        let record = SessionRecord {
            total_time: self.analytics.get_time_gained_formatted(),
            durations_count: count as u32,
            durations_avg: self.analytics.get_duration_avg(),
            session_id: self.id,
            tag: match &self.tag {
                Some(t) => Some(t.clone()),
                None => None,
            },
            intervals,
        };
        proof {
            assert(record@.intervals =~= session_record(self@).intervals);
            assert(record@ =~= session_record(self@));
        }
        Ok(record)
    }

    /// The tag of the session.
    pub fn tag(&self) -> (r: &Option<String>)
        ensures
            tag_view(*r) == self@.tag,
    {
        &self.tag
    }

    /// The total of the session when the clock reads `now`, without a
    /// change to the summary.
    pub fn total(&self, now: u128) -> (r: Result<u128, TimerError>)
        ensures
            match self@.total(now as nat) {
                Ok(t) => r is Ok && r->Ok_0 == t,
                Err(e) => r is Err && r->Err_0 == e,
            },
    {
        ledger_total(&self.durations, &self.additions, &self.subtractions, now)
    }

    /// The number of completed intervals.
    pub fn completed(&self) -> (r: u64)
        requires
            self.wf(),
        ensures
            r == closed_count(self@.durations),
            r == self@.analytics.count(),
    {
        self.analytics.get_duration_count()
    }

    /// The identifier that the store gave the session.
    pub fn id(&self) -> (r: u64)
        ensures
            r == self@.id,
    {
        self.id
    }

    /// Whether tracking is going on.
    pub fn is_active(&self) -> (r: bool)
        ensures
            r == self@.active,
    {
        self.active
    }

    /// The summary as it was last computed.
    pub fn analytics(&self) -> (r: &Analytics)
        ensures
            r@ == self@.analytics,
    {
        &self.analytics
    }
}

} // verus!
