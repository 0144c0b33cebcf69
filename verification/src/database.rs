//! The records that go to and come from the session store. The store
//! itself is not part of this library: these are the plain values that are
//! handed to it and read back from it.

use crate::error::TimerError;
use vstd::prelude::*;
use vstd::string::*;

verus! {

/// One tracked interval of a finished session, as the store keeps it.
#[derive(Debug)]
pub struct TagRecord {
    pub session_id: u64,
    pub tag: Option<String>,
    pub time: String,
}

/// What a tagged interval says, with its text as sequences of characters.
#[verifier::ext_equal]
pub struct TagRecordView {
    pub session_id: u64,
    pub tag: Option<Seq<char>>,
    pub time: Seq<char>,
}

impl View for TagRecord {
    type V = TagRecordView;

    open spec fn view(&self) -> TagRecordView {
        TagRecordView {
            session_id: self.session_id,
            tag: match self.tag {
                Some(t) => Some(t@),
                None => None,
            },
            time: self.time@,
        }
    }
}

/// The summary of a finished session and its intervals, ready to be
/// written to the store.
#[derive(Debug)]
pub struct SessionRecord {
    pub total_time: String,
    pub durations_count: u32,
    pub durations_avg: String,
    pub session_id: u64,
    pub tag: Option<String>,
    pub intervals: Vec<TagRecord>,
}

/// What a session record says, with its text as sequences of characters.
#[verifier::ext_equal]
pub struct SessionRecordView {
    pub total_time: Seq<char>,
    pub durations_count: u32,
    pub durations_avg: Seq<char>,
    pub session_id: u64,
    pub tag: Option<Seq<char>>,
    pub intervals: Seq<TagRecordView>,
}

impl View for SessionRecord {
    type V = SessionRecordView;

    open spec fn view(&self) -> SessionRecordView {
        SessionRecordView {
            total_time: self.total_time@,
            durations_count: self.durations_count,
            durations_avg: self.durations_avg@,
            session_id: self.session_id,
            tag: match self.tag {
                Some(t) => Some(t@),
                None => None,
            },
            intervals: Seq::new(self.intervals@.len(), |i: int| self.intervals@[i]@),
        }
    }
}

/// A finished session as the store lists it.
#[derive(Debug)]
pub struct TimeGained {
    pub id: i32,
    pub total_time: i32,
    pub durations_count: i32,
    pub durations_avg: String,
}

/// The averages over every finished session with one tag.
#[derive(Debug)]
pub struct LifetimeOverview {
    pub lifetime_total_time_avg: String,
    pub lifetime_durations_avg: String,
}

/// The text of an overview with the two averages `total` and `duration`.
pub open spec fn overview_text(total: Seq<char>, duration: Seq<char>) -> Seq<char> {
    "average total time: "@ + total + "\n average duration: "@ + duration
}

impl LifetimeOverview {
    /// The overview as two lines of text.
    pub fn to_text(&self) -> (r: String)
        ensures
            r@ == overview_text(self.lifetime_total_time_avg@, self.lifetime_durations_avg@),
    {
        String::from_str("average total time: ").concat(
            self.lifetime_total_time_avg.as_str(),
        ).concat("\n average duration: ").concat(self.lifetime_durations_avg.as_str())
    }
}

/// The total of one finished session in whole seconds.
#[derive(Debug)]
pub struct TotalTimeAsSeconds {
    pub total_time: i32,
}

/// The heights of the bars that show the totals `times`.
pub open spec fn bar_heights(times: Seq<TotalTimeAsSeconds>) -> Seq<u64> {
    Seq::new(times.len(), |i: int| times[i].total_time as u64)
}

/// Whether no total is negative.
pub open spec fn no_negative_total(times: Seq<TotalTimeAsSeconds>) -> bool {
    forall|i: int| 0 <= i < times.len() ==> (#[trigger] times[i]).total_time >= 0
}

/// The heights of the bars of a chart of totals, one for each session in
/// the order given. A negative total cannot be drawn and fails the call.
pub fn bar_values(times: &Vec<TotalTimeAsSeconds>) -> (r: Result<Vec<u64>, TimerError>)
    ensures
        no_negative_total(times@) ==> r is Ok && r->Ok_0@ == bar_heights(times@),
        !no_negative_total(times@) ==> r is Err && r->Err_0 == TimerError::NegativeTotal,
{
    let mut bars: Vec<u64> = Vec::new();
    let mut i: usize = 0;
    while i < times.len()
        invariant
            i <= times.len(),
            bars@.len() == i,
            forall|j: int| 0 <= j < i ==> (#[trigger] times@[j]).total_time >= 0,
            forall|j: int| 0 <= j < i ==> #[trigger] bars@[j] == times@[j].total_time as u64,
        decreases times.len() - i,
    {
        let total = times[i].total_time;
        if total < 0 {
            return Err(TimerError::NegativeTotal);
        }
        bars.push(total as u64);
        i += 1;
    }
    assert(bars@ =~= bar_heights(times@));
    Ok(bars)
}

/// The time gained under one tag, as the store sums it up.
#[derive(Debug)]
pub struct Tag {
    pub value: String,
    pub duration: String,
}

/// The line of one tag in the pane of tags.
pub open spec fn tag_line(value: Seq<char>, duration: Seq<char>) -> Seq<char> {
    value + " :: "@ + duration + "\n"@
}

/// The pane of tags: one line for each tag, in the order given.
pub open spec fn tags_pane(tags: Seq<Tag>) -> Seq<char>
    decreases tags.len(),
{
    if tags.len() == 0 {
        Seq::empty()
    } else {
        tags_pane(tags.drop_last()) + tag_line(tags.last().value@, tags.last().duration@)
    }
}

/// The text of the pane of tags.
pub fn format_tags_pane(tags: &Vec<Tag>) -> (r: String)
    ensures
        r@ == tags_pane(tags@),
{
    let mut out = String::new();
    let mut i: usize = 0;
    while i < tags.len()
        invariant
            i <= tags.len(),
            out@ == tags_pane(tags@.take(i as int)),
        decreases tags.len() - i,
    {
        proof {
            assert(tags@.take(i + 1).drop_last() =~= tags@.take(i as int));
            assert(tags@.take(i + 1).last() == tags@[i as int]);
        }
        let ghost before = out@;
        out.append(tags[i].value.as_str());
        out.append(" :: ");
        out.append(tags[i].duration.as_str());
        out.append("\n");
        assert(out@ =~= before + tag_line(tags@[i as int].value@, tags@[i as int].duration@));
        i += 1;
    }
    assert(tags@.take(tags.len() as int) =~= tags@);
    out
}

} // verus!
